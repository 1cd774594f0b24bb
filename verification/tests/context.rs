use aws_why::context::{takes_global_value, AwsCommandContext};

fn context(argv: &[&str]) -> AwsCommandContext {
    let owned: Vec<String> = argv.iter().map(|arg| arg.to_string()).collect();
    AwsCommandContext::from_argv(&owned)
}

#[test]
fn only_the_aws_cli_is_recognized() {
    assert!(context(&["aws", "s3", "ls"]).is_aws_cli());
    assert!(context(&["/usr/local/bin/aws", "s3"]).is_aws_cli());
    assert!(context(&["bin/aws.exe", "s3"]).is_aws_cli());
    assert!(context(&["/usr/local/bin/aws/", "s3"]).is_aws_cli());
    assert!(context(&["bin//aws/./", "s3"]).is_aws_cli());
    assert!(!context(&["bin/aws/..", "s3"]).is_aws_cli());
    assert!(!context(&["", "s3"]).is_aws_cli());
    assert!(!context(&["/", "s3"]).is_aws_cli());
    assert!(!context(&[".", "s3"]).is_aws_cli());
    assert!(!context(&["./", "s3"]).is_aws_cli());
    assert!(!context(&["sh", "-c", "aws s3 ls"]).is_aws_cli());
    assert!(!context(&["aws/tool"]).is_aws_cli());
    assert!(!context(&["awslocal"]).is_aws_cli());
    assert!(!context(&[]).is_aws_cli());
}

#[test]
fn paths_of_other_platforms_end_in_the_cli_or_are_not_recognized() {
    assert!(!context(&["C:\\Windows\\sh.exe", "s3"]).is_aws_cli());
    assert!(!context(&["C:sh", "s3"]).is_aws_cli());
    assert!(!context(&["\\\\server\\share\\tool.exe", "s3"]).is_aws_cli());
    assert!(!context(&["//server/share/tool", "s3"]).is_aws_cli());
    assert!(!context(&["C:\\aws\\tool.exe", "s3"]).is_aws_cli());
    assert!(!context(&["C:\\tools\\aws.exe\\..", "s3"]).is_aws_cli());
    assert!(!context(&["aws..", "s3"]).is_aws_cli());
    assert!(context(&["C:/tools/aws.exe", "s3"]).is_aws_cli());
    assert!(context(&["C:\\tools/aws/.", "s3"]).is_aws_cli());
    assert_eq!(
        context(&["C:/tools/aws.exe", "s3"]).executable().unwrap(),
        "C:/tools/aws.exe"
    );
}

#[test]
fn values_of_options_are_not_the_service() {
    let found = context(&[
        "aws", "--output", "json", "--query", "x", "--region", "eu-west-1", "kms", "list-keys",
    ]);
    assert_eq!(found.service.as_deref(), Some("kms"));
    assert_eq!(found.region.as_deref(), Some("eu-west-1"));
    assert_eq!(found.profile, None);
}

#[test]
fn options_without_a_value_are_passed_over() {
    let found = context(&["aws", "s3", "--profile"]);
    assert_eq!(found.profile, None);
    assert_eq!(context(&["aws", "s3", "--endpoint-url"]).explicit_endpoint, true);
}

#[test]
fn the_value_of_an_option_blocks_nothing() {
    assert_eq!(
        context(&["aws", "--query", "--no-sign-request", "s3"]).diagnostic_block_reason(),
        None
    );
    assert!(context(&["aws", "--query", "--query", "--no-sign-request", "s3"])
        .diagnostic_block_reason()
        .is_some());
    assert_eq!(context(&["aws", "s3", "ls"]).diagnostic_block_reason(), None);
}

#[test]
fn block_reasons_are_exact() {
    assert_eq!(
        context(&["aws", "s3", "--endpoint-url", "x", "--no-sign-request"])
            .diagnostic_block_reason(),
        Some("Follow-up diagnostics were skipped because the command used --no-sign-request.")
    );
    assert_eq!(
        context(&["aws", "s3", "--endpoint-url=x"]).diagnostic_block_reason(),
        Some("Follow-up diagnostics were skipped because the command used a custom endpoint.")
    );
}

#[test]
fn credentials_come_from_the_closest_source() {
    let plain = context(&["aws", "s3"]);
    assert_eq!(
        plain.credential_hint(None).as_deref(),
        Some("AWS default credential chain")
    );
    assert_eq!(
        plain.credential_hint(Some("dev")).as_deref(),
        Some("AWS_PROFILE=dev")
    );
    assert_eq!(
        context(&["aws", "s3", "--profile", "prod"])
            .credential_hint(Some("dev"))
            .as_deref(),
        Some("AWS CLI --profile prod")
    );
    assert_eq!(
        context(&["aws", "s3", "--profile", "prod", "--no-sign-request"])
            .credential_hint(Some("dev"))
            .as_deref(),
        Some("unsigned request (--no-sign-request)")
    );
}

#[test]
fn diagnostic_calls_share_profile_and_region() {
    let found = context(&["aws", "--region", "eu-west-1", "s3", "--profile=prod"]);
    assert_eq!(
        found.args_for(&["sts", "get-caller-identity"]),
        [
            "--profile",
            "prod",
            "--region",
            "eu-west-1",
            "sts",
            "get-caller-identity"
        ]
    );
    assert_eq!(found.executable().unwrap(), "aws");
    assert_eq!(
        AwsCommandContext::default().executable().unwrap_err(),
        "the wrapped executable is not the AWS CLI"
    );
    let own = AwsCommandContext::for_diagnostics("/opt/aws".to_owned(), None, None);
    assert_eq!(own.executable().unwrap(), "/opt/aws");
    assert_eq!(own.args_for(&["x"]), ["x"]);
}

#[test]
fn global_options_take_values() {
    assert!(takes_global_value("--ca-bundle"));
    assert!(takes_global_value("--cli-error-format"));
    assert!(!takes_global_value("--debug"));
    assert!(!takes_global_value("--profile"));
}
