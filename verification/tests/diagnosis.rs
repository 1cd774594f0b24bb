use aws_why::context::AwsCommandContext;
use aws_why::diagnosis::{
    decode_authorization_message, diagnose_authorization, discover_identity,
    fill_action_from_operation, identity_call, request_authorization_details, simulate, Diagnosis,
    DiagnosisStep, FollowUp, FollowUpOutcomes,
};
use aws_why::errors::parse_aws_error;
use aws_why::evaluations::{cause_from_policy_type, decision_from_message, parse_decision};
use aws_why::model::{
    AwsErrorEvidence, AwsIdentity, Confidence, Decision, DenyCause, EvidenceSource,
};
use aws_why::runner::{DiagnosticOutput, Reply};

const FULL: &str = "An error occurred (AccessDenied) when calling the GetObject operation: User: arn:aws:iam::123456789012:user/alice is not authorized to perform: s3:GetObject on resource: arn:aws:s3:::b/k because no identity-based policy allows the s3:GetObject action. Authorization ID: auth-1 Encoded authorization failure message: secret";
const BARE: &str = "An error occurred (AccessDenied) when calling the GetObject operation: User: arn:aws:iam::123456789012:user/alice is not authorized to perform: s3:GetObject on resource: arn:aws:s3:::b/k";

const DETAILS: &str = r#"{"evaluations":[{"action":"s3:GetObject","resource":"arn:aws:s3:::b/k","evaluatedEffect":"IMPLICIT_DENY"}]}"#;
const DECODED: &str = r#"{"DecodedMessage":"{\"allowed\":false,\"explicitDeny\":true,\"context\":{\"action\":\"s3:GetObject\",\"resource\":\"arn:aws:s3:::b/k\"}}"}"#;
const SIMULATED: &str = r#"{"EvaluationResults":[{"EvalDecision":"implicitDeny"}]}"#;

fn reply(stdout: &str) -> Reply {
    Ok(DiagnosticOutput {
        success: true,
        stdout: stdout.as_bytes().to_vec(),
        stderr: Vec::new(),
        truncated: false,
    })
}

fn failed() -> Reply {
    Ok(DiagnosticOutput {
        success: false,
        stdout: Vec::new(),
        stderr: Vec::new(),
        truncated: false,
    })
}

fn cut() -> Reply {
    Ok(DiagnosticOutput {
        success: true,
        stdout: b"{}".to_vec(),
        stderr: Vec::new(),
        truncated: true,
    })
}

fn context() -> AwsCommandContext {
    AwsCommandContext::for_diagnostics("aws".to_owned(), None, Some("eu-west-1".to_owned()))
}

fn alice() -> AwsIdentity {
    AwsIdentity::from_arn("arn:aws:iam::123456789012:user/alice").unwrap()
}

fn error(text: &str) -> AwsErrorEvidence {
    parse_aws_error(text.as_bytes()).unwrap()
}

/// Asks until there is a diagnosis; the calls that were made come with it.
fn diagnose(text: &str, answer: fn(&FollowUp) -> Reply) -> (Diagnosis, Vec<Vec<String>>) {
    let mut outcomes = FollowUpOutcomes::new();
    let mut calls = Vec::new();
    loop {
        let mut item = error(text);
        match diagnose_authorization(&context(), &mut item, Some(&alice()), true, &outcomes) {
            DiagnosisStep::Done(diagnosis) => return (diagnosis, calls),
            DiagnosisStep::Ask(asked, call) => {
                outcomes.record(&asked, &answer(&asked));
                calls.push(call.args);
            }
        }
    }
}

#[test]
fn the_strongest_evidence_is_taken() {
    let (diagnosis, calls) = diagnose(FULL, |asked| match asked {
        FollowUp::Details => reply(DETAILS),
        _ => failed(),
    });
    assert_eq!(
        calls,
        [[
            "--region",
            "eu-west-1",
            "iam-toolbox",
            "get-request-authorization-details",
            "--authorization-id",
            "auth-1",
            "--output",
            "json"
        ]]
    );
    assert!(diagnosis.notes.is_empty());
    assert_eq!(
        diagnosis.authorization[0].evidence_source,
        EvidenceSource::RequestAuthorizationDetails
    );
    assert_eq!(diagnosis.authorization[0].confidence, Confidence::Verified);
    assert_eq!(
        diagnosis.authorization[0].decision,
        Decision::ImplicitDeny
    );
    assert_eq!(diagnosis.authorization[0].cause, Some(DenyCause::Unknown));
}

#[test]
fn a_decoded_message_comes_second() {
    let (diagnosis, calls) = diagnose(FULL, |asked| match asked {
        FollowUp::Details => reply("{}"),
        FollowUp::Decode => reply(DECODED),
        _ => failed(),
    });
    assert_eq!(calls.len(), 2);
    assert_eq!(
        calls[1][2..],
        [
            "sts",
            "decode-authorization-message",
            "--encoded-message",
            "secret",
            "--output",
            "json"
        ]
    );
    assert_eq!(
        diagnosis.notes,
        ["AWS authorization details contained no action/resource evaluations."]
    );
    let result = &diagnosis.authorization[0];
    assert_eq!(
        result.evidence_source,
        EvidenceSource::DecodedAuthorizationMessage
    );
    assert_eq!(result.decision, Decision::ExplicitDeny);
    assert_eq!(result.cause, Some(DenyCause::IdentityPolicyExplicitDeny));
    assert_eq!(result.action.as_deref(), Some("s3:GetObject"));
}

#[test]
fn the_error_itself_comes_third() {
    let (diagnosis, calls) = diagnose(FULL, |_| failed());
    assert_eq!(calls.len(), 2);
    assert_eq!(
        diagnosis.notes,
        [
            "AWS request authorization details were unavailable or not permitted.",
            "The encoded AWS authorization message could not be decoded; sts:DecodeAuthorizationMessage might be missing."
        ]
    );
    let result = &diagnosis.authorization[0];
    assert_eq!(result.evidence_source, EvidenceSource::AwsError);
    assert_eq!(result.confidence, Confidence::Reported);
    assert_eq!(result.cause, Some(DenyCause::MissingIdentityAllow));
    assert_eq!(result.decision, Decision::ImplicitDeny);
}

#[test]
fn a_simulation_comes_fourth() {
    let (diagnosis, calls) = diagnose(BARE, |_| reply(SIMULATED));
    assert_eq!(
        calls,
        [[
            "--region",
            "eu-west-1",
            "iam",
            "simulate-principal-policy",
            "--policy-source-arn",
            "arn:aws:iam::123456789012:user/alice",
            "--action-names",
            "s3:GetObject",
            "--resource-arns",
            "arn:aws:s3:::b/k",
            "--output",
            "json"
        ]]
    );
    let result = &diagnosis.authorization[0];
    assert_eq!(result.evidence_source, EvidenceSource::PolicySimulation);
    assert_eq!(result.confidence, Confidence::Simulated);
    assert_eq!(result.action.as_deref(), Some("s3:GetObject"));
    assert_eq!(result.resource.as_deref(), Some("arn:aws:s3:::b/k"));
    assert_eq!(result.cause, Some(DenyCause::MissingIdentityAllow));
}

#[test]
fn without_evidence_the_cause_is_unknown() {
    let (diagnosis, calls) = diagnose(BARE, |_| failed());
    assert_eq!(calls.len(), 1);
    assert_eq!(
        diagnosis.notes,
        ["IAM policy simulation was unavailable or not permitted."]
    );
    assert_eq!(diagnosis.authorization[0].decision, Decision::Unknown);
    assert_eq!(diagnosis.authorization[0].cause, Some(DenyCause::Unknown));
    assert_eq!(
        diagnosis.authorization[0].confidence,
        Confidence::Incomplete
    );
}

#[test]
fn nothing_is_asked_without_leave() {
    let mut item = error(FULL);
    match diagnose_authorization(
        &context(),
        &mut item,
        Some(&alice()),
        false,
        &FollowUpOutcomes::new(),
    ) {
        DiagnosisStep::Done(diagnosis) => {
            assert_eq!(
                diagnosis.authorization[0].evidence_source,
                EvidenceSource::AwsError
            );
            assert!(diagnosis.notes.is_empty());
        }
        other => panic!("{other:?}"),
    }
    let mut item = error(FULL);
    match diagnose_authorization(
        &AwsCommandContext::default(),
        &mut item,
        None,
        true,
        &FollowUpOutcomes::new(),
    ) {
        DiagnosisStep::Done(diagnosis) => assert_eq!(
            diagnosis.notes,
            [
                "the wrapped executable is not the AWS CLI",
                "the wrapped executable is not the AWS CLI"
            ]
        ),
        other => panic!("{other:?}"),
    }
}

#[test]
fn principals_without_policies_are_not_simulated() {
    let root = AwsIdentity::from_arn("arn:aws:iam::123456789012:root").unwrap();
    let mut item = error(BARE);
    match diagnose_authorization(
        &context(),
        &mut item,
        Some(&root),
        true,
        &FollowUpOutcomes::new(),
    ) {
        DiagnosisStep::Done(diagnosis) => assert_eq!(
            diagnosis.notes,
            ["IAM simulation does not support this principal type."]
        ),
        other => panic!("{other:?}"),
    }
}

#[test]
fn actions_are_filled_from_operations() {
    let text = "An error occurred (AccessDenied) when calling the ListKeys operation: denied";
    let mut known = context();
    known.service = Some("kms".to_owned());
    let mut item = error(text);
    fill_action_from_operation(&known, &mut item);
    assert_eq!(item.action.as_deref(), Some("kms:ListKeys"));
    assert_eq!(item.service.as_deref(), Some("kms"));
    known.service = Some("ec2".to_owned());
    let mut item = error(text);
    fill_action_from_operation(&known, &mut item);
    assert_eq!(item.action, None);
    known.service = Some("s3".to_owned());
    let mut item = error(BARE);
    fill_action_from_operation(&known, &mut item);
    assert_eq!(item.action.as_deref(), Some("s3:GetObject"));
}

#[test]
fn identities_are_read_from_the_reply() {
    let call = identity_call(&context()).unwrap();
    assert_eq!(call.executable, "aws");
    assert_eq!(
        call.args,
        [
            "--region",
            "eu-west-1",
            "sts",
            "get-caller-identity",
            "--output",
            "json"
        ]
    );
    assert_eq!(
        discover_identity(&reply(
            r#"{"Nested":[{"Arn":"arn:aws:iam::123456789012:user/alice"}]}"#
        ))
        .unwrap(),
        alice()
    );
    let errors = [
        (
            Err("no such file".to_owned()),
            "Could not determine the caller identity: no such file",
        ),
        (
            cut(),
            "AWS caller identity output exceeded the diagnostic limit.",
        ),
        (
            failed(),
            "Could not determine the caller identity with the command's AWS credentials.",
        ),
        (
            reply("{"),
            "AWS returned an unreadable caller identity response.",
        ),
        (reply("{}"), "AWS caller identity did not include an ARN."),
        (
            reply(r#"{"Arn":"x"}"#),
            "AWS returned an unrecognized caller ARN.",
        ),
    ];
    for (given, expected) in errors {
        assert_eq!(discover_identity(&given).unwrap_err(), expected);
    }
}

#[test]
fn unusable_replies_say_why() {
    let details = [
        (
            Err("x".to_owned()),
            "Could not retrieve AWS authorization details: x",
        ),
        (
            cut(),
            "AWS authorization details exceeded the diagnostic limit.",
        ),
        (
            failed(),
            "AWS request authorization details were unavailable or not permitted.",
        ),
        (reply("-"), "AWS returned unreadable authorization details."),
    ];
    for (given, expected) in details {
        assert_eq!(
            request_authorization_details(&given).unwrap_err(),
            expected
        );
    }
    let decoded = [
        (
            Err("x".to_owned()),
            "Could not decode the AWS authorization message: x",
        ),
        (
            cut(),
            "Decoded AWS authorization details exceeded the diagnostic limit.",
        ),
        (
            reply("-"),
            "AWS returned an unreadable decoded authorization message.",
        ),
        (
            reply("{}"),
            "AWS did not return decoded authorization details.",
        ),
        (
            reply(r#"{"DecodedMessage":"{"}"#),
            "AWS returned malformed decoded authorization details.",
        ),
    ];
    for (given, expected) in decoded {
        assert_eq!(decode_authorization_message(&given).unwrap_err(), expected);
    }
    let simulations = [
        (
            Err("x".to_owned()),
            "Could not run IAM policy simulation: x",
        ),
        (
            cut(),
            "IAM policy simulation output exceeded the diagnostic limit.",
        ),
        (reply("-"), "AWS returned an unreadable policy simulation."),
        (
            reply("{}"),
            "IAM policy simulation returned no evaluation result.",
        ),
    ];
    for (given, expected) in simulations {
        assert_eq!(simulate(&given, "a:B", "*").unwrap_err(), expected);
    }
}

#[test]
fn simulated_causes_have_their_order() {
    let cause = |body: &str| {
        simulate(
            &reply(&format!(r#"{{"EvaluationResults":[{{{body}}}]}}"#)),
            "a:B",
            "*",
        )
        .unwrap()
        .cause
    };
    assert_eq!(
        cause(
            r#""EvalDecision":"implicitDeny","PermissionsBoundaryDecisionDetail":{"AllowedByPermissionsBoundary":false},"OrganizationsDecisionDetail":{"AllowedByOrganizations":false}"#
        ),
        Some(DenyCause::PermissionsBoundary)
    );
    assert_eq!(
        cause(
            r#""EvalDecision":"implicitDeny","OrganizationsDecisionDetail":{"AllowedByOrganizations":false},"MissingContextValues":["k"]"#
        ),
        Some(DenyCause::ServiceControlPolicy)
    );
    assert_eq!(
        cause(r#""EvalDecision":"implicitDeny","MissingContextValues":["k"]"#),
        Some(DenyCause::Condition)
    );
    assert_eq!(
        cause(
            r#""EvalDecision":"explicitDeny","MatchedStatements":[{"SourcePolicyType":"Identity Policy"}]"#
        ),
        Some(DenyCause::IdentityPolicyExplicitDeny)
    );
    assert_eq!(
        cause(r#""EvalDecision":"implicitDeny""#),
        Some(DenyCause::MissingIdentityAllow)
    );
    assert_eq!(
        cause(r#""EvalDecision":"explicitDeny""#),
        Some(DenyCause::Unknown)
    );
    assert_eq!(
        cause(r#""EvalDecision":"allowed","MissingContextValues":["k"]"#),
        None
    );
}

#[test]
fn decisions_and_policy_types_are_read_in_any_case() {
    assert_eq!(parse_decision("ALLOWED"), Decision::Allowed);
    assert_eq!(parse_decision("Explicit_Deny"), Decision::ExplicitDeny);
    assert_eq!(parse_decision("implicitdeny"), Decision::ImplicitDeny);
    assert_eq!(parse_decision("maybe"), Decision::Unknown);
    assert_eq!(
        decision_from_message("with an Explicit Deny in"),
        Decision::ExplicitDeny
    );
    assert_eq!(
        cause_from_policy_type("SERVICE CONTROL POLICY", Decision::ImplicitDeny),
        DenyCause::ServiceControlPolicy
    );
    assert_eq!(
        cause_from_policy_type("permissions boundary", Decision::ImplicitDeny),
        DenyCause::PermissionsBoundary
    );
}
