use aws_why::aws::{parse_aws_error, AwsCommandContext};
use aws_why::diagnosis::{request_authorization_details, simulate};
use aws_why::model::{AwsIdentity, Confidence, Decision, DenyCause, EvidenceSource, FailureKind};
use aws_why::runner::{DiagnosticOutput, Reply};

fn reply(stdout: &str) -> Reply {
    Ok(DiagnosticOutput {
        success: true,
        stdout: stdout.as_bytes().to_vec(),
        stderr: Vec::new(),
        truncated: false,
    })
}

#[test]
fn parses_assumed_role() {
    let identity = AwsIdentity::from_arn(
        "arn:aws:sts::123456789012:assumed-role/team/DataEngineer/example-session",
    )
    .unwrap();
    assert_eq!(identity.account_id, "123456789012");
    assert_eq!(identity.role_name.as_deref(), Some("team/DataEngineer"));
    assert_eq!(identity.session_name.as_deref(), Some("example-session"));
    assert_eq!(
        identity.policy_source_arn().as_deref(),
        Some("arn:aws:iam::123456789012:role/team/DataEngineer")
    );
}

#[test]
fn parses_enhanced_permissions_boundary_error() {
    let raw = br#"upload failed: ./x.csv to s3://prod-data/x.csv An error occurred (AccessDenied) when calling the PutObject operation: User: arn:aws:sts::123456789012:assumed-role/DataEngineer/example-session is not authorized to perform: s3:PutObject on resource: arn:aws:s3:::prod-data/x.csv because no permissions boundary allows the s3:PutObject action"#;
    let error = parse_aws_error(raw).unwrap();
    assert_eq!(error.failure_kind, FailureKind::Authorization);
    assert_eq!(error.operation.as_deref(), Some("PutObject"));
    assert_eq!(error.action.as_deref(), Some("s3:PutObject"));
    assert_eq!(
        error.resource.as_deref(),
        Some("arn:aws:s3:::prod-data/x.csv")
    );
    assert_eq!(error.reported_cause, Some(DenyCause::PermissionsBoundary));
}

#[test]
fn parses_json_error_and_authorization_id() {
    let raw = br#"{
          "Code": "AccessDeniedException",
          "Message": "User: arn:aws:iam::123456789012:user/example-user is not authorized to perform: kms:Decrypt on resource: arn:aws:kms:us-east-1:123456789012:key/abc",
          "RequestId": "request-1",
          "AuthorizationId": "auth-1"
        }"#;
    let error = parse_aws_error(raw).unwrap();
    assert_eq!(error.request_id.as_deref(), Some("request-1"));
    assert_eq!(error.authorization_id.as_deref(), Some("auth-1"));
    assert_eq!(error.action.as_deref(), Some("kms:Decrypt"));
}

#[test]
fn expired_token_is_not_authorization() {
    let raw = b"An error occurred (ExpiredToken) when calling the ListBuckets operation: The security token included in the request is expired";
    let error = parse_aws_error(raw).unwrap();
    assert_eq!(error.failure_kind, FailureKind::Authentication);
}

#[test]
fn parses_cli_context_anywhere() {
    let argv = vec![
        "aws".to_owned(),
        "s3".to_owned(),
        "cp".to_owned(),
        "x".to_owned(),
        "s3://bucket/x".to_owned(),
        "--profile".to_owned(),
        "prod".to_owned(),
        "--region=us-west-2".to_owned(),
    ];
    let context = AwsCommandContext::from_argv(&argv);
    assert_eq!(context.profile.as_deref(), Some("prod"));
    assert_eq!(context.region.as_deref(), Some("us-west-2"));
    assert_eq!(context.service.as_deref(), Some("s3"));
}

#[test]
fn blocks_diagnostics_for_unsigned_and_custom_endpoint_commands() {
    let unsigned = AwsCommandContext::from_argv(&[
        "aws".to_owned(),
        "s3".to_owned(),
        "ls".to_owned(),
        "--no-sign-request".to_owned(),
    ]);
    assert!(unsigned.diagnostic_block_reason().is_some());

    let custom = AwsCommandContext::from_argv(&[
        "aws".to_owned(),
        "--endpoint-url=http://localhost:4566".to_owned(),
        "s3".to_owned(),
        "ls".to_owned(),
    ]);
    assert!(custom.diagnostic_block_reason().is_some());
}

#[test]
fn parses_verified_authorization_details() {
    let value = reply(
        r#"{
              "evaluations": [{
                "action": "s3:PutObject",
                "resource": "arn:aws:s3:::prod/x",
                "evaluatedEffect": "EXPLICIT_DENY",
                "matchedPolicies": [{
                  "uri": "arn:aws:iam::123456789012:policy/Boundary",
                  "matchedStatements": [{"sid":"DenyWrite", "evaluatedEffect":"EXPLICIT_DENY"}]
                }]
              }],
              "policies": [{
                "type": "permissions boundary",
                "uri": "arn:aws:iam::123456789012:policy/Boundary",
                "inline": false,
                "attachedTo": [{"arn":"arn:aws:iam::123456789012:role/DataEngineer"}]
              }]
            }"#,
    );
    let results = request_authorization_details(&value).unwrap();
    assert_eq!(results.len(), 1);
    assert_eq!(results[0].decision, Decision::ExplicitDeny);
    assert_eq!(results[0].cause, Some(DenyCause::PermissionsBoundary));
    assert_eq!(results[0].confidence, Confidence::Verified);
    assert_eq!(
        results[0].policy.as_deref(),
        Some("arn:aws:iam::123456789012:policy/Boundary")
    );
    assert_eq!(
        results[0].evidence_source,
        EvidenceSource::RequestAuthorizationDetails
    );
}

#[test]
fn simulation_allow_is_never_verified() {
    let value = reply(
        r#"{"EvaluationResults":[{"EvalActionName":"s3:GetObject","EvalResourceName":"arn:aws:s3:::b/k","EvalDecision":"allowed","MatchedStatements":[],"MissingContextValues":[]}]}"#,
    );
    let result = simulate(&value, "s3:GetObject", "arn:aws:s3:::b/k").unwrap();
    assert_eq!(result.decision, Decision::Allowed);
    assert_eq!(result.cause, None);
    assert_eq!(result.confidence, Confidence::Simulated);
    assert_eq!(result.evidence_source, EvidenceSource::PolicySimulation);
}
