use aws_why::permissions::{
    accept_reference, arn_template_matches, arn_template_pattern, fetch_service_actions,
    judge_resource, normalize_action, normalize_resources, normalize_service, reference_url,
    validate_candidate_resource, validate_from_reference, ActionResource, ResourceValidator,
    ServiceAction, ServiceIndexEntry, ServiceReference, ServiceResource, ValidationStep,
};

fn owned(list: &[&str]) -> Vec<String> {
    list.iter().map(|item| item.to_string()).collect()
}

fn action(name: &str, resources: &[&str]) -> ServiceAction {
    ServiceAction {
        name: name.to_owned(),
        resources: resources
            .iter()
            .map(|name| ActionResource {
                name: name.to_string(),
            })
            .collect(),
    }
}

fn kind(name: &str, formats: &[&str]) -> ServiceResource {
    ServiceResource {
        name: name.to_owned(),
        arn_formats: owned(formats),
    }
}

fn s3_reference() -> ServiceReference {
    ServiceReference {
        name: "s3".to_owned(),
        actions: vec![
            action("GetObject", &["object"]),
            action("ListAllMyBuckets", &[]),
        ],
        resources: vec![kind(
            "object",
            &["arn:${Partition}:s3:::${BucketName}/${ObjectName}"],
        )],
    }
}

#[test]
fn normalizes_actions_with_and_without_prefixes() {
    assert_eq!(
        normalize_action("GetObject", Some("s3")).unwrap(),
        "s3:GetObject"
    );
    assert_eq!(
        normalize_action("s3:PutObject", Some("s3")).unwrap(),
        "s3:PutObject"
    );
    assert!(normalize_action("iam:ListUsers", Some("s3")).is_err());
}

#[test]
fn rejects_service_url_injection() {
    assert!(normalize_service("s3/../../example").is_err());
    assert!(normalize_service("S3").is_ok());
}

#[test]
fn validates_resource_shapes_from_aws_reference_data() {
    let reference = s3_reference();
    assert!(
        validate_from_reference(&reference, "GetObject", "arn:aws:s3:::bucket/key")
            .unwrap()
            .valid
    );
    assert!(
        !validate_from_reference(&reference, "GetObject", "arn:aws:s3:::bucket")
            .unwrap()
            .valid
    );
    assert!(
        validate_from_reference(&reference, "ListAllMyBuckets", "*")
            .unwrap()
            .valid
    );
    assert!(
        !validate_from_reference(&reference, "ListAllMyBuckets", "arn:aws:s3:::bucket")
            .unwrap()
            .valid
    );
}

#[test]
fn services_are_lowered_and_checked() {
    assert_eq!(normalize_service("S3").unwrap(), "s3");
    assert_eq!(normalize_service("Ec2-Instance").unwrap(), "ec2-instance");
    for refused in ["", "s3 ", "s3.", "é", "s3:"] {
        assert_eq!(
            normalize_service(refused).unwrap_err(),
            "Service must be an IAM service prefix such as s3, ec2, or secretsmanager."
        );
    }
}

#[test]
fn refused_actions_say_why() {
    assert_eq!(
        normalize_action("GetObject", None).unwrap_err(),
        "Action must include its service prefix, for example s3:GetObject."
    );
    assert_eq!(
        normalize_action("s3:Get*", None).unwrap_err(),
        "Invalid IAM action: s3:Get*"
    );
    assert_eq!(
        normalize_action("", Some("s3")).unwrap_err(),
        "Invalid IAM action: "
    );
    assert_eq!(
        normalize_action("s3:", None).unwrap_err(),
        "Invalid IAM action: s3:"
    );
    assert_eq!(
        normalize_action("iam:ListUsers", Some("s3")).unwrap_err(),
        "Action iam:ListUsers does not belong to requested service s3."
    );
    assert_eq!(
        normalize_action("s 3:GetObject", None).unwrap_err(),
        "Service must be an IAM service prefix such as s3, ec2, or secretsmanager."
    );
    assert_eq!(
        normalize_action("s3:a:b", None).unwrap_err(),
        "Invalid IAM action: s3:a:b"
    );
}

#[test]
fn accepted_actions_are_accepted_as_they_are() {
    let once = normalize_action("S3:GetObject", None).unwrap();
    assert_eq!(once, "s3:GetObject");
    assert_eq!(normalize_action(&once, None).unwrap(), once);
    assert_eq!(normalize_action(&once, Some("s3")).unwrap(), once);
}

#[test]
fn resources_are_counted_and_checked() {
    assert_eq!(normalize_resources(Vec::new()).unwrap(), ["*"]);
    let most: Vec<String> = (0..25).map(|i| format!("arn:aws:s3:::bucket{i}")).collect();
    assert_eq!(normalize_resources(most.clone()).unwrap(), most);
    let many: Vec<String> = (0..26).map(|i| format!("arn:aws:s3:::bucket{i}")).collect();
    assert_eq!(
        normalize_resources(many).unwrap_err(),
        "At most 25 resources can be simulated in one command."
    );
    let refusal = "Each resource must be * or a non-empty ARN of at most 2048 characters.";
    assert_eq!(
        normalize_resources(vec![String::new()]).unwrap_err(),
        refusal
    );
    assert_eq!(
        normalize_resources(vec!["a\nb".to_owned()]).unwrap_err(),
        refusal
    );
    assert!(normalize_resources(vec!["a".repeat(2048)]).is_ok());
    assert_eq!(
        normalize_resources(vec!["a".repeat(2049)]).unwrap_err(),
        refusal
    );
    assert_eq!(
        normalize_resources(vec!["é".repeat(1025)]).unwrap_err(),
        refusal
    );
    assert!(normalize_resources(vec!["é".repeat(1024)]).is_ok());
}

#[test]
fn reference_addresses_come_from_the_index() {
    let entry = |service: &str, url: &str| ServiceIndexEntry {
        service: service.to_owned(),
        url: url.to_owned(),
    };
    let index = Some(vec![
        entry("ec2", "https://example.com/ec2.json"),
        entry(
            "s3",
            "https://servicereference.us-east-1.amazonaws.com/v1/s3/s3.json",
        ),
        entry("s3", "https://example.com/other.json"),
    ]);
    assert_eq!(
        reference_url(&index, "s3").unwrap(),
        "https://servicereference.us-east-1.amazonaws.com/v1/s3/s3.json"
    );
    assert_eq!(
        reference_url(&index, "ec2").unwrap_err(),
        "AWS service-reference index returned an unexpected URL."
    );
    assert_eq!(
        reference_url(&index, "kms").unwrap_err(),
        "AWS Service Authorization Reference has no service named kms."
    );
    assert_eq!(
        reference_url(&None, "kms").unwrap_err(),
        "AWS returned an unreadable service-reference index."
    );
}

#[test]
fn references_are_of_the_service_that_was_asked_for() {
    let mut reference = s3_reference();
    reference.name = "S3".to_owned();
    assert_eq!(accept_reference(Some(reference), "s3").unwrap().name, "S3");
    assert_eq!(
        accept_reference(Some(s3_reference()), "ec2").unwrap_err(),
        "AWS service-reference response did not match the requested service."
    );
    assert_eq!(
        accept_reference(None, "ec2").unwrap_err(),
        "AWS returned unreadable authorization data for ec2."
    );
}

#[test]
fn service_actions_are_sorted_and_unique() {
    let reference = Ok(ServiceReference {
        name: "s3".to_owned(),
        actions: vec![
            action("PutObject", &[]),
            action("GetObject", &[]),
            action("PutObject", &[]),
        ],
        resources: Vec::new(),
    });
    assert_eq!(
        fetch_service_actions("S3", &reference).unwrap(),
        ["s3:GetObject", "s3:PutObject"]
    );
    let empty = Ok(ServiceReference {
        name: "s3".to_owned(),
        actions: Vec::new(),
        resources: Vec::new(),
    });
    assert_eq!(
        fetch_service_actions("s3", &empty).unwrap_err(),
        "AWS listed no IAM actions for s3."
    );
    assert_eq!(
        fetch_service_actions("s3", &Err("no route".to_owned())).unwrap_err(),
        "no route"
    );
    assert_eq!(
        fetch_service_actions("s/3", &reference).unwrap_err(),
        "Service must be an IAM service prefix such as s3, ec2, or secretsmanager."
    );
}

#[test]
fn templates_become_anchored_patterns() {
    assert_eq!(
        arn_template_pattern("arn:${Partition}:sqs:${Region}:${Account}:${QueueName}").unwrap(),
        r"^arn:[^:]+:sqs:[^:]*:[^:]*:[^\s]+$"
    );
    assert_eq!(
        arn_template_pattern("a.b-${Name}*").unwrap(),
        r"^a\.b\-[^\s]+\*$"
    );
    assert_eq!(arn_template_pattern("arn:${Partition").as_deref(), None);
    assert_eq!(arn_template_pattern("").unwrap(), "^$");
}

#[test]
fn templates_match_what_has_their_form() {
    let template = "arn:${Partition}:s3:::${BucketName}/${ObjectName}";
    assert!(arn_template_matches(template, "arn:aws:s3:::bucket/a/b"));
    assert!(!arn_template_matches(template, "arn:aws:s3:::bucket"));
    assert!(!arn_template_matches(template, "arn::s3:::bucket/key"));
    assert!(!arn_template_matches(template, "arn:aws:s3:::bucket/a b"));
    assert!(!arn_template_matches("arn:${Partition", "arn:aws"));
    assert!(!arn_template_matches("a.b", "axb"));
    assert!(arn_template_matches("a.b", "a.b"));
}

#[test]
fn validations_say_what_the_reference_says() {
    let mut reference = s3_reference();
    reference.actions.push(action("Copy", &["object", "bucket", "object"]));
    let validation = validate_from_reference(&reference, "getobject", "arn:aws:s3:::b/k").unwrap();
    assert!(validation.valid);
    assert_eq!(validation.resource_types, ["object"]);
    assert_eq!(
        validation.detail,
        "The reported resource matches AWS resource type object."
    );
    let broad = validate_from_reference(&reference, "Copy", "*").unwrap();
    assert!(broad.valid);
    assert_eq!(broad.resource_types, ["bucket", "object"]);
    assert_eq!(
        broad.detail,
        "AWS supports resource types bucket, object; Resource \"*\" is valid but broad."
    );
    let wrong = validate_from_reference(&reference, "Copy", "arn:aws:s3:::b").unwrap();
    assert!(!wrong.valid);
    assert_eq!(
        wrong.detail,
        "The reported resource does not match the AWS resource types supported by this action: bucket, object. No candidate policy was generated."
    );
    let right = validate_from_reference(&reference, "Copy", "arn:aws:s3:::b/k").unwrap();
    assert_eq!(
        right.detail,
        "The reported resource matches AWS resource type bucket or object."
    );
    assert_eq!(
        validate_from_reference(&reference, "ListAllMyBuckets", "*")
            .unwrap()
            .detail,
        "AWS lists this action without resource-level permissions; Resource \"*\" is required."
    );
    assert_eq!(
        validate_from_reference(&reference, "ListAllMyBuckets", "x")
            .unwrap()
            .detail,
        "AWS lists this action without resource-level permissions, so the reported ARN cannot scope an Allow; Resource \"*\" is required."
    );
    assert_eq!(
        validate_from_reference(&reference, "Missing", "*").unwrap_err(),
        "AWS Service Authorization Reference has no action named s3:Missing."
    );
}

#[test]
fn resources_are_judged_by_whether_they_fit() {
    let copy = action("Copy", &["object", "bucket", "object"]);
    let right = judge_resource(&copy, "anything", true);
    assert!(right.valid);
    assert_eq!(right.resource_types, ["bucket", "object"]);
    assert_eq!(
        right.detail,
        "The reported resource matches AWS resource type bucket or object."
    );
    let wrong = judge_resource(&copy, "anything", false);
    assert!(!wrong.valid);
    assert_eq!(
        wrong.detail,
        "The reported resource does not match the AWS resource types supported by this action: bucket, object. No candidate policy was generated."
    );
    assert!(judge_resource(&copy, "*", false).valid);
    let plain = action("ListAllMyBuckets", &[]);
    assert!(!judge_resource(&plain, "anything", true).valid);
    assert!(judge_resource(&plain, "*", false).valid);
}

#[test]
fn a_reference_is_asked_for_once() {
    let mut validator = ResourceValidator::new();
    match validator.validate("S3:GetObject", "*") {
        ValidationStep::NeedReference(service) => assert_eq!(service, "s3"),
        other => panic!("{other:?}"),
    }
    validator.provide("s3", Ok(s3_reference()));
    match validator.validate("s3:GetObject", "*") {
        ValidationStep::Done(Ok(validation)) => assert!(validation.valid),
        other => panic!("{other:?}"),
    }
    validator.provide("s3", Err("too late".to_owned()));
    assert!(matches!(
        validator.validate("s3:ListAllMyBuckets", "*"),
        ValidationStep::Done(Ok(_))
    ));
    validator.provide("kms", Err("no route".to_owned()));
    match validator.validate("kms:Decrypt", "*") {
        ValidationStep::Done(Err(error)) => assert_eq!(error, "no route"),
        other => panic!("{other:?}"),
    }
    match validator.validate("nothing", "*") {
        ValidationStep::Done(Err(error)) => assert_eq!(
            error,
            "Action must include its service prefix, for example s3:nothing."
        ),
        other => panic!("{other:?}"),
    }
}

#[test]
fn candidate_resources_are_judged_by_what_was_fetched() {
    assert!(
        validate_candidate_resource(
            "s3:GetObject",
            "arn:aws:s3:::bucket/key",
            Ok(s3_reference())
        )
        .unwrap()
        .valid
    );
    assert_eq!(
        validate_candidate_resource("s3:GetObject", "*", Err("no route".to_owned())).unwrap_err(),
        "no route"
    );
    assert_eq!(
        validate_candidate_resource("GetObject", "*", Ok(s3_reference())).unwrap_err(),
        "Action must include its service prefix, for example s3:GetObject."
    );
}
