use aws_why::commands::{
    can_exit_code, can_request, permissions_exit_code, permissions_request, replays_stderr,
    simulate_report, start_simulation, warn_if_truncated, RequestStep, SimulationRequest,
};
use aws_why::context::AwsCommandContext;
use aws_why::model::{AuthorizationResult, AwsIdentity, Decision, FailureKind};
use aws_why::permissions::{ServiceAction, ServiceReference};
use aws_why::runner::{CommandRun, DiagnosticCall, DiagnosticOutput, Reply};
use aws_why::simulation::simulate_permissions;

fn context() -> AwsCommandContext {
    AwsCommandContext::for_diagnostics("aws".to_owned(), Some("prod".to_owned()), None)
}

fn role() -> AwsIdentity {
    AwsIdentity::from_arn("arn:aws:sts::123456789012:assumed-role/Auditor/me").unwrap()
}

fn root() -> AwsIdentity {
    AwsIdentity::from_arn("arn:aws:iam::123456789012:root").unwrap()
}

fn owned(list: &[&str]) -> Vec<String> {
    list.iter().map(|item| item.to_string()).collect()
}

fn output(success: bool, stdout: &str, stderr: &str, truncated: bool) -> Reply {
    Ok(DiagnosticOutput {
        success,
        stdout: stdout.as_bytes().to_vec(),
        stderr: stderr.as_bytes().to_vec(),
        truncated,
    })
}

/// Allows what a call asks for.
fn allow_all(call: &DiagnosticCall) -> Reply {
    let start = call.args.iter().position(|arg| arg == "--action-names").unwrap() + 1;
    let end = call.args.iter().position(|arg| arg == "--resource-arns").unwrap();
    let resource = &call.args[end + 1];
    let evaluations: Vec<String> = call.args[start..end]
        .iter()
        .map(|action| {
            format!(
                r#"{{"EvalActionName":"{action}","EvalResourceName":"{resource}","EvalDecision":"allowed"}}"#
            )
        })
        .collect();
    output(
        true,
        &format!(r#"{{"EvaluationResults":[{}]}}"#, evaluations.join(",")),
        "",
        false,
    )
}

#[test]
fn calls_name_the_source_the_actions_and_the_resource() {
    let running = simulate_permissions(
        &context(),
        &role(),
        &owned(&["s3:GetObject", "s3:PutObject"]),
        &owned(&["arn:aws:s3:::b/k"]),
    );
    let call = running.ok().unwrap().next_call().unwrap();
    assert_eq!(call.executable, "aws");
    assert_eq!(
        call.args,
        [
            "--profile",
            "prod",
            "iam",
            "simulate-principal-policy",
            "--policy-source-arn",
            "arn:aws:iam::123456789012:role/Auditor",
            "--action-names",
            "s3:GetObject",
            "s3:PutObject",
            "--resource-arns",
            "arn:aws:s3:::b/k",
            "--max-items",
            "1000",
            "--output",
            "json"
        ]
    );
}

#[test]
fn every_pair_is_simulated_in_bounded_batches() {
    let actions: Vec<String> = (0..120).map(|i| format!("s3:Action{i}")).collect();
    let resources = owned(&["arn:aws:s3:::a", "arn:aws:s3:::b"]);
    let mut running = simulate_permissions(&context(), &role(), &actions, &resources)
        .ok()
        .unwrap();
    let mut sizes = Vec::new();
    while let Some(call) = running.next_call() {
        sizes.push(call.args.len() - 13);
        running.accept(&allow_all(&call)).unwrap();
    }
    assert_eq!(sizes, [50, 50, 20, 50, 50, 20]);
    let results = running.finish();
    assert_eq!(results.len(), 240);
    assert_eq!(results[0].action.as_deref(), Some("s3:Action0"));
    assert_eq!(results[119].action.as_deref(), Some("s3:Action119"));
    assert_eq!(results[120].resource.as_deref(), Some("arn:aws:s3:::b"));
}

#[test]
fn full_batches_leave_no_empty_one() {
    let actions: Vec<String> = (0..50).map(|i| format!("s3:Action{i}")).collect();
    let mut running = simulate_permissions(&context(), &role(), &actions, &owned(&["*"]))
        .ok()
        .unwrap();
    let call = running.next_call().unwrap();
    running.accept(&allow_all(&call)).unwrap();
    assert!(running.next_call().is_none());
    let none = simulate_permissions(&context(), &role(), &Vec::new(), &owned(&["*"]));
    assert!(none.ok().unwrap().next_call().is_none());
}

#[test]
fn simulations_that_cannot_be_made_say_why() {
    assert_eq!(
        simulate_permissions(&context(), &root(), &owned(&["a:B"]), &owned(&["*"]))
            .err()
            .unwrap(),
        "IAM simulation supports IAM users and roles, not this principal type."
    );
    assert_eq!(
        simulate_permissions(
            &AwsCommandContext::default(),
            &role(),
            &owned(&["a:B"]),
            &owned(&["*"])
        )
        .err()
        .unwrap(),
        "the wrapped executable is not the AWS CLI"
    );
}

#[test]
fn unusable_answers_end_the_simulation() {
    let answers = [
        (
            Err("no such file".to_owned()),
            "Could not run IAM policy simulation: no such file",
        ),
        (
            output(true, "{}", "", true),
            "IAM policy simulation output exceeded the diagnostic limit.",
        ),
        (
            output(false, "", r#"{"Code":"AccessDenied","Message":"no"}"#, false),
            "IAM denied the simulation request. The caller needs iam:SimulatePrincipalPolicy for arn:aws:iam::123456789012:role/Auditor.",
        ),
        (
            output(false, "", r#"{"Code":"Throttling","Message":"slow"}"#, false),
            "IAM policy simulation failed with Throttling.",
        ),
        (
            output(false, "", "", false),
            "IAM policy simulation failed without a readable AWS error.",
        ),
        (
            output(true, "{", "", false),
            "AWS returned an unreadable policy simulation.",
        ),
        (
            output(true, r#"{"EvaluationResults":[{"EvalDecision":"allowed"}]}"#, "", false),
            "IAM policy simulation returned 1 of 2 expected evaluation results.",
        ),
    ];
    let mut running = simulate_permissions(
        &context(),
        &role(),
        &owned(&["a:B", "a:C"]),
        &owned(&["*"]),
    )
    .ok()
    .unwrap();
    for (answer, expected) in answers {
        assert_eq!(running.accept(&answer).unwrap_err(), expected);
    }
    assert!(running.next_call().is_some());
    assert!(running.finish().is_empty());
}

#[test]
fn requests_of_can_are_normalized() {
    let request = can_request("S3:GetObject", Vec::new()).unwrap();
    assert_eq!(request.actions, ["s3:GetObject"]);
    assert_eq!(request.resources, ["*"]);
    assert_eq!(request.service.as_deref(), Some("s3"));
    assert!(!request.fetched_catalog);
    assert_eq!(
        can_request("GetObject", vec![String::new()]).unwrap_err(),
        "Action must include its service prefix, for example s3:GetObject."
    );
    assert_eq!(
        can_request("s3:GetObject", vec![String::new()]).unwrap_err(),
        "Each resource must be * or a non-empty ARN of at most 2048 characters."
    );
}

fn done(step: RequestStep) -> Result<SimulationRequest, String> {
    match step {
        RequestStep::Done(result) => result,
        RequestStep::NeedReference(service) => panic!("{service}"),
    }
}

#[test]
fn named_actions_skip_the_catalog() {
    let request = done(permissions_request(
        "S3",
        &owned(&["PutObject", "s3:GetObject", "PutObject"]),
        Vec::new(),
        &None,
    ))
    .unwrap();
    assert_eq!(request.actions, ["s3:GetObject", "s3:PutObject"]);
    assert_eq!(request.service.as_deref(), Some("s3"));
    assert!(!request.fetched_catalog);
    assert_eq!(
        done(permissions_request(
            "s3",
            &owned(&["GetObject", "iam:ListUsers", "x y"]),
            Vec::new(),
            &None
        ))
        .unwrap_err(),
        "Action iam:ListUsers does not belong to requested service s3."
    );
    assert_eq!(
        done(permissions_request("s/3", &Vec::new(), Vec::new(), &None)).unwrap_err(),
        "Service must be an IAM service prefix such as s3, ec2, or secretsmanager."
    );
}

#[test]
fn whole_services_need_the_catalog() {
    match permissions_request("S3", &Vec::new(), Vec::new(), &None) {
        RequestStep::NeedReference(service) => assert_eq!(service, "s3"),
        other => panic!("{other:?}"),
    }
    let reference = Some(Ok(ServiceReference {
        name: "s3".to_owned(),
        actions: vec![ServiceAction {
            name: "GetObject".to_owned(),
            resources: Vec::new(),
        }],
        resources: Vec::new(),
    }));
    let request = done(permissions_request("S3", &Vec::new(), Vec::new(), &reference)).unwrap();
    assert_eq!(request.actions, ["s3:GetObject"]);
    assert!(request.fetched_catalog);
    let report = simulate_report(role(), request, Vec::new()).unwrap();
    assert_eq!(report.notes.len(), 2);
    assert_eq!(
        report.notes[1],
        "Action names came from AWS's current public Service Authorization Reference."
    );
    assert_eq!(
        done(permissions_request(
            "s3",
            &Vec::new(),
            Vec::new(),
            &Some(Err("no route".to_owned()))
        ))
        .unwrap_err(),
        "no route"
    );
}

#[test]
fn identities_without_policies_get_no_report() {
    let expected = "The current identity cannot be mapped to an IAM user or role.";
    let request = can_request("s3:GetObject", Vec::new()).unwrap();
    assert_eq!(
        start_simulation(&context(), &root(), &request).err().unwrap(),
        expected
    );
    assert_eq!(
        simulate_report(root(), request, Vec::new()).unwrap_err(),
        expected
    );
}

#[test]
fn can_tells_by_its_exit_code() {
    let report = |decisions: &[Decision]| {
        let request = can_request("s3:GetObject", Vec::new()).unwrap();
        let results: Vec<AuthorizationResult> = decisions
            .iter()
            .map(|decision| {
                let mut running = start_simulation(&context(), &role(), &request).ok().unwrap();
                let call = running.next_call().unwrap();
                running.accept(&allow_all(&call)).unwrap();
                let mut result = running.finish().remove(0);
                result.decision = *decision;
                result
            })
            .collect();
        simulate_report(role(), request, results)
    };
    assert_eq!(
        can_exit_code(&report(&[Decision::Allowed, Decision::Allowed])),
        0
    );
    for other in [
        Decision::ExplicitDeny,
        Decision::ImplicitDeny,
        Decision::Unknown,
    ] {
        let mixed = report(&[Decision::Allowed, other]);
        assert_eq!(can_exit_code(&mixed), 3);
        assert_eq!(permissions_exit_code(&mixed), 0);
    }
    assert_eq!(can_exit_code(&Err("failed".to_owned())), 2);
    assert_eq!(permissions_exit_code(&Err("failed".to_owned())), 2);
}

#[test]
fn streams_are_shown_again_where_nothing_stands_for_them() {
    assert!(replays_stderr(false, FailureKind::Network));
    assert!(!replays_stderr(false, FailureKind::Authorization));
    assert!(!replays_stderr(true, FailureKind::Network));
    let mut run = CommandRun {
        argv: owned(&["aws"]),
        exit_code: 0,
        stdout: Vec::new(),
        stderr: Vec::new(),
        stdout_truncated: true,
        stderr_truncated: true,
        stderr_replay_truncated: true,
    };
    assert_eq!(
        warn_if_truncated(&run),
        [
            "aws-why: command stdout exceeded the 64 MiB --json replay limit and was truncated",
            "aws-why: command stderr exceeded the 8 MiB replay limit and was truncated"
        ]
    );
    run.stdout_truncated = false;
    assert_eq!(warn_if_truncated(&run).len(), 1);
    run.stderr_replay_truncated = false;
    assert!(warn_if_truncated(&run).is_empty());
}
