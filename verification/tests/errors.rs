use aws_why::analyze_text;
use aws_why::errors::{
    classify_failure, clean_error_type, known_text_error_code, parse_aws_error,
    parse_reported_cause, trim_sentence_punctuation,
};
use aws_why::model::{DenyCause, FailureKind};

#[test]
fn kinds_follow_the_code() {
    let kinds = [
        ("ExpiredToken", FailureKind::Authentication),
        ("NoCredentialsError", FailureKind::Authentication),
        ("AccessDenied", FailureKind::Authorization),
        ("NotAuthorizedException", FailureKind::Authorization),
        ("NoRegion", FailureKind::Configuration),
        ("ParamValidation", FailureKind::Configuration),
        ("ReadTimeoutError", FailureKind::Network),
        ("SSLValidationError", FailureKind::Network),
        ("NoSuchKey", FailureKind::ResourceNotFound),
        ("NoSuchEntity", FailureKind::ResourceNotFound),
        ("ThrottlingException", FailureKind::Other),
        ("com.amazon#AccessDenied", FailureKind::Authorization),
    ];
    for (code, kind) in kinds {
        assert_eq!(classify_failure(code, "message"), kind);
    }
}

#[test]
fn messages_can_tell_the_kind() {
    assert_eq!(
        classify_failure("AccessDenied", "UNABLE TO LOCATE CREDENTIALS"),
        FailureKind::Authentication
    );
    assert_eq!(
        classify_failure("X", "You must specify a region."),
        FailureKind::Configuration
    );
    assert_eq!(
        classify_failure("X", "you must specify a region."),
        FailureKind::Other
    );
    assert_eq!(
        classify_failure("X", "Could not connect to the endpoint URL"),
        FailureKind::Network
    );
}

#[test]
fn texts_without_a_marked_code_give_it_away() {
    assert_eq!(
        known_text_error_code("Unable to locate credentials. You can").as_deref(),
        Some("NoCredentialsError")
    );
    assert_eq!(
        known_text_error_code("x ReadTimeoutError y").as_deref(),
        Some("ReadTimeoutError")
    );
    assert_eq!(known_text_error_code("nothing"), None);
    assert_eq!(
        parse_aws_error(b"nothing").unwrap().error_code,
        "UnknownError"
    );
}

#[test]
fn causes_are_read_from_the_message() {
    let causes = [
        ("a PERMISSIONS boundary", Some(DenyCause::PermissionsBoundary)),
        ("a service control policy", Some(DenyCause::ServiceControlPolicy)),
        ("a resource control policy", Some(DenyCause::ResourceControlPolicy)),
        ("a VPC endpoint policy", Some(DenyCause::VpcEndpointPolicy)),
        ("a session policy", Some(DenyCause::SessionPolicy)),
        ("the role trust policy", Some(DenyCause::RoleTrustPolicy)),
        ("the KMS key policy", Some(DenyCause::KmsKeyPolicy)),
        ("a resource-based policy", Some(DenyCause::ResourcePolicy)),
        (
            "with an explicit deny in an identity-based policy",
            Some(DenyCause::IdentityPolicyExplicitDeny),
        ),
        (
            "no identity-based policy allows it",
            Some(DenyCause::MissingIdentityAllow),
        ),
        ("a condition", Some(DenyCause::Condition)),
        ("the key policy", None),
        ("", None),
    ];
    for (message, cause) in causes {
        assert_eq!(parse_reported_cause(message).0, cause);
    }
    assert_eq!(
        parse_reported_cause("by arn:aws:iam::123456789012:policy/Deny, again").1.as_deref(),
        Some("arn:aws:iam::123456789012:policy/Deny")
    );
}

#[test]
fn words_lose_the_punctuation_behind_them() {
    assert_eq!(trim_sentence_punctuation("arn:x.)"), "arn:x");
    assert_eq!(trim_sentence_punctuation("*"), "*");
    assert_eq!(clean_error_type("com.amazon#Denied"), "Denied");
    assert_eq!(clean_error_type("Denied"), "Denied");
}

#[test]
fn nothing_is_read_from_nothing() {
    assert!(parse_aws_error(b"").is_none());
    assert!(parse_aws_error(b" \n\t ").is_none());
}

#[test]
fn bytes_that_are_no_text_are_replaced() {
    let error = parse_aws_error(b"bad \xff byte").unwrap();
    assert_eq!(error.message, "bad \u{fffd} byte");
    assert_eq!(error.raw_error, b"bad \xff byte");
}

#[test]
fn texts_carry_their_identifiers() {
    let error = parse_aws_error(
        b"An error occurred (AccessDenied) when calling the GetObject operation: denied. Request ID: abc-1 Authorization ID: auth/2 Encoded authorization failure message: secret",
    )
    .unwrap();
    assert_eq!(error.request_id.as_deref(), Some("abc-1"));
    assert_eq!(error.authorization_id.as_deref(), Some("auth/2"));
    assert_eq!(
        error.encoded_authorization_message.as_deref(),
        Some("secret")
    );
    assert_eq!(error.operation.as_deref(), Some("GetObject"));
    assert_eq!(error.action, None);
}

#[test]
fn the_text_alone_makes_a_report() {
    let report = analyze_text(
        b"An error occurred (AccessDenied) when calling the PutObject operation: User: arn:aws:iam::123456789012:user/alice is not authorized to perform: s3:PutObject on resource: arn:aws:s3:::b/k because no identity-based policy allows the s3:PutObject action",
    );
    assert_eq!(report.exit_code, 1);
    assert_eq!(report.result, "denied");
    assert_eq!(
        report.identity.unwrap().user_name.as_deref(),
        Some("alice")
    );
    assert_eq!(report.authorization.len(), 1);
    assert_eq!(
        report.authorization[0].cause,
        Some(DenyCause::MissingIdentityAllow)
    );
    assert!(report.remediation[0].candidate_policy.is_some());
    assert!(report.notes.is_empty());
    let other = analyze_text(b"An error occurred (NoSuchKey) when calling the GetObject operation: gone");
    assert_eq!(other.result, "not_found");
    assert!(other.authorization.is_empty());
    assert_eq!(analyze_text(b"").result, "failed");
}
