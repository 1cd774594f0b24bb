use aws_why::analyze;
use aws_why::analysis::AnalysisStep;
use aws_why::aws::AwsCommandContext;
use aws_why::commands::{
    can_exit_code, can_request, permissions_exit_code, permissions_request, principal_identity,
    simulate_report, start_simulation, RequestStep, SimulationRequest,
};
use aws_why::diagnosis::{discover_identity, identity_call, FollowUpOutcomes};
use aws_why::model::{
    AnalysisReport, AwsIdentity, Confidence, Decision, DenyCause, FailureKind, PermissionReport,
};
use aws_why::output::{write_human, write_permission_human};
use aws_why::runner::{CommandRun, DiagnosticCall, DiagnosticOutput, Reply};

const BOUNDARY: &str = "An error occurred (AccessDenied) when calling the PutObject operation: User: arn:aws:sts::111111111111:assumed-role/DataEngineer/example-session is not authorized to perform: s3:PutObject on resource: arn:aws:s3:::prod-data/x.csv because no permissions boundary allows the s3:PutObject action\n";
const EXPIRED: &str = "An error occurred (ExpiredToken) when calling the ListBuckets operation: The security token included in the request is expired\n";
const UNKNOWN: &str = "An error occurred (AccessDenied) when calling the GetObject operation: User: arn:aws:sts::111111111111:assumed-role/DataEngineer/example-session is not authorized to perform: s3:GetObject on resource: arn:aws:s3:::prod-data/x.csv\n";
const MISSING_GET: &str = "An error occurred (AccessDenied) when calling the GetObject operation: User: arn:aws:sts::111111111111:assumed-role/AnalyticsDeveloper/example-session is not authorized to perform: s3:GetObject on resource: arn:aws:s3:::company-prod/orders.parquet because no identity-based policy allows the s3:GetObject action\n";
const KMS_LIST: &str = "An error occurred (AccessDeniedException) when calling the ListKeys operation: User: arn:aws:sts::111111111111:assumed-role/DataEngineer/example-session is not authorized to perform: kms:ListKeys on resource: * because no identity-based policy allows the kms:ListKeys action\n";
const SCP: &str = "An error occurred (AccessDenied) when calling the PutObject operation: User: arn:aws:sts::111111111111:assumed-role/DataEngineer/example-session is not authorized to perform: s3:PutObject on resource: arn:aws:s3:::prod-data/x.csv with an explicit deny in a service control policy: arn:aws:organizations::999999999999:policy/o-example/service_control_policy/p-guardrail\n";
const KMS_DEPENDENCY: &str = "An error occurred (AccessDeniedException) when calling the GetSecretValue operation: User: arn:aws:sts::111111111111:assumed-role/DataEngineer/example-session is not authorized to perform: kms:Decrypt on resource: arn:aws:kms:us-east-1:111111111111:key/abc because no identity-based policy allows the kms:Decrypt action\n";
const CROSS_ACCOUNT: &str = "An error occurred (AccessDeniedException) when calling the GetSecretValue operation: User: arn:aws:sts::111111111111:assumed-role/DataEngineer/example-session is not authorized to perform: secretsmanager:GetSecretValue on resource: arn:aws:secretsmanager:us-east-1:222222222222:secret:prod because no identity-based policy allows the secretsmanager:GetSecretValue action\n";
const UNSIGNED: &str = "An error occurred (AccessDenied) when calling the GetObject operation: not authorized to perform: s3:GetObject on resource: arn:aws:s3:::public-data/x.csv because no identity-based policy allows the s3:GetObject action\n";
const ENCODED: &str = "An error occurred (UnauthorizedOperation) when calling the RunInstances operation: not authorized to perform: ec2:RunInstances because no identity-based policy allows the ec2:RunInstances action. Encoded authorization failure message: SUPERSECRETENCODEDPAYLOAD\n";

const ALLOWED_SIMULATION: &str = r#"{"EvaluationResults":[{"EvalActionName":"s3:GetObject","EvalResourceName":"arn:aws:s3:::example/key","EvalDecision":"allowed","MatchedStatements":[{"SourcePolicyId":"ReadPolicy","SourcePolicyType":"IAM Policy"}],"MissingContextValues":[],"PermissionsBoundaryDecisionDetail":{"AllowedByPermissionsBoundary":true},"OrganizationsDecisionDetail":{"AllowedByOrganizations":true}}]}"#;
const MATRIX_SIMULATION: &str = r#"{"EvaluationResults":[{"EvalActionName":"s3:GetObject","EvalResourceName":"arn:aws:s3:::example/key","EvalDecision":"allowed","MatchedStatements":[{"SourcePolicyId":"ReadPolicy","SourcePolicyType":"IAM Policy"}],"MissingContextValues":[]},{"EvalActionName":"s3:PutObject","EvalResourceName":"arn:aws:s3:::example/key","EvalDecision":"implicitDeny","MatchedStatements":[],"MissingContextValues":["aws:RequestedRegion"]}]}"#;
const DENIED_SIMULATION: &str = r#"{"Code":"AccessDenied","Message":"not authorized to perform: iam:SimulatePrincipalPolicy because no identity-based policy allows the iam:SimulatePrincipalPolicy action"}"#;

/// An AWS CLI that knows who calls it and how it simulates.
fn fake_aws(call: &DiagnosticCall, simulation: &str) -> Reply {
    let args = call.args.join(" ");
    let (success, stdout, stderr) = if args.contains("sts get-caller-identity") {
        (
            true,
            r#"{"UserId":"id","Account":"111111111111","Arn":"arn:aws:sts::111111111111:assumed-role/DataEngineer/example-session"}"#,
            "",
        )
    } else if args.contains("iam simulate-principal-policy") {
        match simulation {
            "allowed" => (true, ALLOWED_SIMULATION, ""),
            "matrix" => (true, MATRIX_SIMULATION, ""),
            _ => (false, "", DENIED_SIMULATION),
        }
    } else {
        (false, "", "unexpected call")
    };
    Ok(DiagnosticOutput {
        success,
        stdout: stdout.as_bytes().to_vec(),
        stderr: stderr.as_bytes().to_vec(),
        truncated: false,
    })
}

fn ended(stderr: &str, extra: &[&str]) -> CommandRun {
    let mut argv: Vec<String> = ["/tmp/fake/aws", "s3", "cp", "x.csv", "s3://prod-data/x.csv"]
        .iter()
        .map(|arg| arg.to_string())
        .collect();
    argv.extend(extra.iter().map(|arg| arg.to_string()));
    CommandRun {
        argv,
        exit_code: 254,
        stdout: Vec::new(),
        stderr: stderr.as_bytes().to_vec(),
        stdout_truncated: false,
        stderr_truncated: false,
        stderr_replay_truncated: false,
    }
}

/// Analyzes a run, and counts the diagnostic calls.
fn analyze_run(run: &CommandRun) -> (AnalysisReport, usize) {
    let mut outcomes = FollowUpOutcomes::new();
    let mut calls = 0;
    loop {
        match analyze(run, &outcomes, None) {
            AnalysisStep::Done(report) => return (report, calls),
            AnalysisStep::Ask(asked, call) => {
                calls += 1;
                assert_eq!(call.executable, run.argv[0]);
                outcomes.record(&asked, &fake_aws(&call, "denied"));
            }
        }
    }
}

fn invoke(stderr: &str, extra: &[&str]) -> AnalysisReport {
    analyze_run(&ended(stderr, extra)).0
}

fn policy_texts(report: &AnalysisReport) -> Vec<String> {
    report
        .remediation
        .iter()
        .map(|item| match &item.candidate_policy {
            Some(policy) => {
                let statement = &policy.statement[0];
                format!(
                    "{{\n  \"Version\": \"{}\",\n  \"Statement\": [\n    {{\n      \"Effect\": \"{}\",\n      \"Action\": \"{}\",\n      \"Resource\": \"{}\"\n    }}\n  ]\n}}",
                    policy.version, statement.effect, statement.action, statement.resource
                )
            }
            None => String::new(),
        })
        .collect()
}

fn human(report: &AnalysisReport, verbose: bool) -> String {
    write_human(report, verbose, &policy_texts(report))
}

fn caller(context: &AwsCommandContext) -> AwsIdentity {
    let call = identity_call(context).unwrap();
    discover_identity(&fake_aws(&call, "")).unwrap()
}

fn simulated(
    request: SimulationRequest,
    simulation: &str,
) -> Result<PermissionReport, String> {
    let context = AwsCommandContext::for_diagnostics("aws".to_owned(), None, None);
    let identity = caller(&context);
    let mut running = start_simulation(&context, &identity, &request)?;
    while let Some(call) = running.next_call() {
        running.accept(&fake_aws(&call, simulation))?;
    }
    simulate_report(identity, request, running.finish())
}

#[test]
fn identifies_boundary_from_live_error() {
    let report = invoke(BOUNDARY, &[]);
    assert_eq!(report.exit_code, 254);
    let stderr = human(&report, false);
    assert!(stderr.contains("DENIED: s3:PutObject"));
    assert!(stderr.contains("s3:PutObject"));
    assert!(stderr.contains("a permissions boundary blocks the action"));
    assert!(stderr.contains("NEXT STEP"));
    assert!(!stderr.contains("Evidence"));
}

#[test]
fn expired_token_is_not_described_as_iam() {
    let stderr = human(&invoke(EXPIRED, &[]), false);
    assert!(stderr.contains("AUTHENTICATION FAILURE"));
    assert!(stderr.contains("This is not evidence that an IAM permission is missing."));
    assert!(!stderr.contains("ACCESS DENIED\n\nIdentity"));
    assert_eq!(
        stderr,
        "\nAUTHENTICATION FAILURE\n\nYour AWS session expired.\n\nThis is not evidence that an IAM permission is missing.\n"
    );
}

#[test]
fn insufficient_evidence_is_unknown() {
    let stderr = human(&invoke(UNKNOWN, &[]), false);
    assert!(stderr.contains("the exact denial reason is unknown"));
    assert!(stderr.contains("simulation was unavailable or not permitted"));
}

#[test]
fn points_out_cross_account_profile_mismatch() {
    let stderr = human(&invoke(CROSS_ACCOUNT, &[]), false);
    assert!(stderr.contains(
        "Caller account 111111111111 differs from target resource account 222222222222"
    ));
}

#[test]
fn names_missing_s3_permission() {
    let stderr = human(&invoke(MISSING_GET, &[]), false);
    assert!(stderr.contains("s3:GetObject"));
    assert!(stderr.contains("no identity-based policy allows the action"));
    assert!(stderr.contains("arn:aws:s3:::company-prod/orders.parquet"));
}

#[test]
fn turns_conclusive_denial_into_an_admin_handoff() {
    let stderr = human(&invoke(KMS_LIST, &[]), false);
    assert!(stderr.contains("DENIED: kms:ListKeys on *"));
    assert!(stderr.contains("arn:aws:iam::111111111111:role/DataEngineer"));
    assert!(stderr.contains("ASK YOUR ADMIN FOR"));
    assert!(stderr.contains("\"Action\": \"kms:ListKeys\""));
    assert!(stderr.contains("\"Resource\": \"*\""));
    assert!(!stderr.contains("Evidence"));
    assert!(!stderr.contains("Credential source"));
    assert!(!stderr.contains("session:"));
    assert!(!stderr.contains("could not obtain complete AWS authorization details"));
}

#[test]
fn verbose_mode_keeps_forensic_details() {
    let stderr = human(&invoke(KMS_LIST, &[]), true);
    assert!(stderr.contains("ACCESS DENIED: kms:ListKeys on *"));
    assert!(stderr.contains("session: example-session"));
    assert!(stderr.contains("Evidence"));
    assert!(stderr.contains("AWS error response (reported by AWS)"));
    assert!(stderr.contains("Credential source"));
    assert!(stderr.contains("Administrator handoff"));
}

#[test]
fn identifies_scp_and_does_not_recommend_another_allow() {
    let stderr = human(&invoke(SCP, &[]), false);
    assert!(stderr.contains("a service control policy blocks the action"));
    assert!(stderr.contains("p-guardrail"));
    assert!(!stderr.contains("add an Allow"));
    assert!(!stderr.contains("Candidate policy"));
}

#[test]
fn identifies_kms_dependency_from_secrets_manager_failure() {
    let stderr = human(&invoke(KMS_DEPENDENCY, &[]), false);
    assert!(stderr.contains("kms:Decrypt"));
    assert!(stderr.contains("arn:aws:kms:us-east-1:111111111111:key/abc"));
    assert!(!stderr.contains("secretsmanager:GetSecretValue\n\nResource"));
}

#[test]
fn json_mode_emits_one_machine_readable_failure() {
    let value = invoke(BOUNDARY, &[]);
    assert_eq!(value.result, "denied");
    assert_eq!(
        value.identity.unwrap().role_name.as_deref(),
        Some("DataEngineer")
    );
    assert_eq!(value.authorization[0].action.as_deref(), Some("s3:PutObject"));
    assert_eq!(
        value.authorization[0].cause,
        Some(DenyCause::PermissionsBoundary)
    );
    assert_eq!(value.authorization[0].confidence, Confidence::Reported);
    assert_eq!(
        value.remediation[0].guidance,
        "An identity-policy Allow alone will not fix this. Ask the boundary owner to permit the action, then verify the identity policy also allows it."
    );
    assert!(value.remediation[0].candidate_policy.is_none());
}

#[test]
fn unsigned_command_never_triggers_credentialed_diagnostics() {
    let (report, calls) = analyze_run(&ended(UNSIGNED, &["--no-sign-request"]));
    assert_eq!(calls, 0);
    let stderr = human(&report, false);
    assert!(stderr.contains("skipped because the command used --no-sign-request"));
    assert!(!stderr.contains("Identity\n"));
    assert!(!stderr.contains("Candidate policy"));
}

#[test]
fn custom_endpoint_command_never_triggers_follow_up_calls() {
    let (report, calls) = analyze_run(&ended(
        UNSIGNED,
        &["--endpoint-url", "http://localhost:4566"],
    ));
    assert_eq!(calls, 0);
    let stderr = human(&report, false);
    assert!(stderr.contains("skipped because the command used a custom endpoint"));
    assert!(!stderr.contains("Identity\n"));
    assert!(!stderr.contains("Candidate policy"));
}

#[test]
fn raw_encoded_authorization_payload_is_not_replayed() {
    let stderr = human(&invoke(ENCODED, &[]), false);
    assert!(stderr.contains("DENIED"));
    assert!(!stderr.contains("SUPERSECRETENCODEDPAYLOAD"));
}

#[test]
fn can_reports_an_allowed_simulation_and_returns_success() {
    let request = can_request("s3:GetObject", vec!["arn:aws:s3:::example/key".to_owned()]).unwrap();
    let report = simulated(request, "allowed");
    assert_eq!(can_exit_code(&report), 0);
    let stdout = write_permission_human(&report.unwrap());
    assert!(stdout.contains("SIMULATED PERMISSIONS"));
    assert!(stdout.contains("ALLOWED"));
    assert!(stdout.contains("s3:GetObject"));
    assert!(stdout.contains("Simulation only"));
}

#[test]
fn permissions_reports_a_matrix_without_fetching_when_actions_are_given() {
    let request = match permissions_request(
        "s3",
        &vec!["GetObject".to_owned(), "PutObject".to_owned()],
        vec!["arn:aws:s3:::example/key".to_owned()],
        &None,
    ) {
        RequestStep::Done(request) => request.unwrap(),
        other => panic!("{other:?}"),
    };
    let report = simulated(request, "matrix");
    assert_eq!(permissions_exit_code(&report), 0);
    let stdout = write_permission_human(&report.unwrap());
    assert!(stdout.contains("s3:GetObject"));
    assert!(stdout.contains("s3:PutObject"));
    assert!(stdout.contains("1 allowed, 1 denied, 0 unknown"));
    assert!(stdout.contains("missing context: aws:RequestedRegion"));
}

#[test]
fn simulation_permission_failure_is_actionable() {
    let request = can_request("s3:GetObject", Vec::new()).unwrap();
    let report = simulated(request, "denied");
    assert_eq!(can_exit_code(&report), 2);
    assert!(report
        .unwrap_err()
        .contains("needs iam:SimulatePrincipalPolicy"));
}

#[test]
fn the_short_text_of_a_denial_is_exact() {
    assert_eq!(
        human(&invoke(BOUNDARY, &[]), false),
        "\nDENIED: s3:PutObject on arn:aws:s3:::prod-data/x.csv\n\nRole\n  arn:aws:iam::111111111111:role/DataEngineer\n\nReason\n  a permissions boundary blocks the action\n\nNEXT STEP\n  An identity-policy Allow alone will not fix this. Ask the boundary owner to permit the action, then verify the identity policy also allows it.\n\n"
    );
}

#[test]
fn the_handoff_is_exact() {
    assert_eq!(
        human(&invoke(KMS_LIST, &[]), false),
        "\nDENIED: kms:ListKeys on *\n\nReason\n  no identity-based policy allows the action\n\nASK YOUR ADMIN FOR\n  Principal: arn:aws:iam::111111111111:role/DataEngineer\n  Missing: kms:ListKeys on *\n\n  Candidate policy (administrator review required):\n    {\n      \"Version\": \"2012-10-17\",\n      \"Statement\": [\n        {\n          \"Effect\": \"Allow\",\n          \"Action\": \"kms:ListKeys\",\n          \"Resource\": \"*\"\n        }\n      ]\n    }\n\nCandidate only—administrator review required; other policy layers may still deny the request.\n\n"
    );
}

#[test]
fn the_long_text_of_a_denial_is_exact() {
    assert_eq!(
        human(&invoke(UNKNOWN, &["--profile", "prod"]), true),
        "\nACCESS DENIED: s3:GetObject on arn:aws:s3:::prod-data/x.csv\n\nIdentity\n  account: 111111111111\n  principal: DataEngineer\n  session: example-session\n\nCause\n  the exact denial reason is unknown\n\nEvidence\n  AWS error response (incomplete)\n\nCredential source\n  AWS CLI --profile prod\n\nNotes\n  IAM policy simulation was unavailable or not permitted.\n\naws-why could not obtain complete AWS authorization details.\n"
    );
}

#[test]
fn the_permission_report_is_exact() {
    let request = can_request("s3:GetObject", vec!["arn:aws:s3:::example/key".to_owned()]).unwrap();
    assert_eq!(
        write_permission_human(&simulated(request, "allowed").unwrap()),
        "SIMULATED PERMISSIONS\n\nIdentity\n  account: 111111111111\n  principal: DataEngineer\n  session: example-session\n  policy source: arn:aws:iam::111111111111:role/DataEngineer\n\nResource\n  arn:aws:s3:::example/key\n  + ALLOWED  s3:GetObject\n              policy: ReadPolicy\n\nSummary: 1 allowed, 0 denied, 0 unknown\nNote: Resource policies are not fetched, and live request context, role session policies, VPC endpoint policies, and resource control policies may change the real result.\nSimulation only: this does not execute the actions or prove a live request will succeed.\n"
    );
}

#[test]
fn a_denial_is_followed_up_once_for_each_question() {
    let (report, calls) = analyze_run(&ended(UNKNOWN, &[]));
    assert_eq!(calls, 2);
    assert_eq!(report.authorization[0].decision, Decision::Unknown);
    assert_eq!(analyze_run(&ended(BOUNDARY, &[])).1, 1);
    assert_eq!(analyze_run(&ended(EXPIRED, &[])).1, 0);
}

#[test]
fn commands_of_other_executables_are_not_followed_up() {
    let mut run = ended(MISSING_GET, &[]);
    run.argv[0] = "sh".to_owned();
    let (report, calls) = analyze_run(&run);
    assert_eq!(calls, 0);
    assert_eq!(report.failure_kind, FailureKind::Authorization);
    assert!(report.authorization.is_empty());
}

#[test]
fn truncated_error_streams_are_noted() {
    let mut run = ended(EXPIRED, &[]);
    run.stderr_truncated = true;
    assert_eq!(
        analyze_run(&run).0.notes,
        ["Only the final 1 MiB of command stderr was analyzed; earlier output was truncated."]
    );
}

#[test]
fn a_named_principal_is_a_user_or_a_role() {
    assert_eq!(
        principal_identity("arn:aws:iam::111111111111:role/Auditor")
            .unwrap()
            .policy_source_arn()
            .as_deref(),
        Some("arn:aws:iam::111111111111:role/Auditor")
    );
    assert_eq!(
        principal_identity("nobody").unwrap_err(),
        "--principal must be an IAM user or role ARN."
    );
    assert_eq!(
        principal_identity("arn:aws:iam::111111111111:root").unwrap_err(),
        "--principal must identify an IAM user or role."
    );
}
