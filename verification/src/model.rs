//! Identities, authorization results and the reports made of them.
use vstd::prelude::*;

use crate::phrases::lemma_guidance_is_clean;
use crate::redaction::{
    no_controls, sanitize_generated_text, sanitize_list, sanitize_option, sanitized, sanitized_list,
    sanitized_option,
};
use crate::text::{
    begins_with, behind_prefix, copy_option, copy_texts, joined, law_parts_stand_inside,
    law_pieces_make_the_text, law_text_falls_apart_at_the_last, law_text_without_it_stays_whole,
    lemma_pieces, lemma_split_first_of, opt_text, pieces, same_text, split_last, split_once_back,
    split_pieces, strip_prefix, texts,
};

verus! {

/// The views of the items of a list.
pub open spec fn views<T: View>(list: Seq<T>) -> Seq<T::V> {
    Seq::new(list.len(), |i: int| list[i]@)
}

/// The view of an optional value.
pub open spec fn opt_view<T: View>(value: Option<T>) -> Option<T::V> {
    match value {
        Some(v) => Some(v@),
        None => None,
    }
}

/// The views of a longer list.
pub broadcast proof fn lemma_views_push<T: View>(list: Seq<T>, item: T)
    ensures
        #[trigger] views(list.push(item)) == views(list).push(item@),
{
    assert(views(list.push(item)) =~= views(list).push(item@));
}

/// What a failure is about.
#[derive(Debug, Clone, Copy, PartialEq, Eq, Structural)]
pub enum FailureKind {
    Authorization,
    Authentication,
    Configuration,
    Network,
    ResourceNotFound,
    Other,
}

#[derive(Debug, Clone, Copy, PartialEq, Eq, Structural)]
pub enum PrincipalType {
    AssumedRole,
    Role,
    User,
    Root,
    FederatedUser,
    Unknown,
}

/// Who makes a request: an ARN and what it says.
#[derive(Debug, PartialEq, Eq)]
pub struct AwsIdentity {
    pub account_id: String,
    pub arn: String,
    pub principal_type: PrincipalType,
    pub role_name: Option<String>,
    pub user_name: Option<String>,
    pub session_name: Option<String>,
}

pub struct IdentityView {
    pub account_id: Seq<char>,
    pub arn: Seq<char>,
    pub principal_type: PrincipalType,
    pub role_name: Option<Seq<char>>,
    pub user_name: Option<Seq<char>>,
    pub session_name: Option<Seq<char>>,
}

impl View for AwsIdentity {
    type V = IdentityView;

    open spec fn view(&self) -> IdentityView {
        IdentityView {
            account_id: self.account_id@,
            arn: self.arn@,
            principal_type: self.principal_type,
            role_name: opt_text(self.role_name),
            user_name: opt_text(self.user_name),
            session_name: opt_text(self.session_name),
        }
    }
}

/// The principal that the last part of an ARN names.
pub open spec fn principal_of(arn: Seq<char>, account: Seq<char>, resource: Seq<char>) -> IdentityView {
    let nobody = IdentityView {
        account_id: account,
        arn,
        principal_type: PrincipalType::Unknown,
        role_name: None,
        user_name: None,
        session_name: None,
    };
    match behind_prefix(resource, "assumed-role/"@) {
        Some(value) => match split_last(value, '/') {
            Some((role, session)) => IdentityView {
                principal_type: PrincipalType::AssumedRole,
                role_name: Some(role),
                session_name: Some(session),
                ..nobody
            },
            None => nobody,
        },
        None => match behind_prefix(resource, "role/"@) {
            Some(role) => IdentityView {
                principal_type: PrincipalType::Role,
                role_name: Some(role),
                ..nobody
            },
            None => match behind_prefix(resource, "user/"@) {
                Some(user) => IdentityView {
                    principal_type: PrincipalType::User,
                    user_name: Some(user),
                    ..nobody
                },
                None => match behind_prefix(resource, "federated-user/"@) {
                    Some(user) => IdentityView {
                        principal_type: PrincipalType::FederatedUser,
                        user_name: Some(user),
                        ..nobody
                    },
                    None => if resource == "root"@ {
                        IdentityView { principal_type: PrincipalType::Root, ..nobody }
                    } else {
                        nobody
                    },
                },
            },
        },
    }
}

/// The identity that an ARN names. It has six parts, starts with `arn` and is one
/// of IAM or STS; the fifth part is the account and the last one the principal.
pub open spec fn identity_of_arn(arn: Seq<char>) -> Option<IdentityView> {
    let parts = pieces(arn, ':', 6);
    if parts.len() == 6 && parts[0] == "arn"@ && (parts[2] == "iam"@ || parts[2] == "sts"@) {
        Some(principal_of(arn, parts[4], parts[5]))
    } else {
        None
    }
}

impl IdentityView {
    /// The name by which the identity is shown.
    pub open spec fn display_name(self) -> Seq<char> {
        match self.role_name {
            Some(role) => role,
            None => match self.user_name {
                Some(user) => user,
                None => self.arn,
            },
        }
    }

    /// The IAM user or role whose policies apply to the identity.
    pub open spec fn policy_source_arn(self) -> Option<Seq<char>> {
        match self.principal_type {
            PrincipalType::AssumedRole => match self.role_name {
                Some(role) => Some(role_arn(self.account_id, role)),
                None => None,
            },
            PrincipalType::Role => Some(self.arn),
            PrincipalType::User => Some(self.arn),
            _ => None,
        }
    }

    /// The policy source where there is one, and the identity itself elsewhere.
    pub open spec fn principal_arn(self) -> Seq<char> {
        match self.policy_source_arn() {
            Some(source) => source,
            None => self.arn,
        }
    }
}

/// The ARN of a role.
pub open spec fn role_arn(account: Seq<char>, role: Seq<char>) -> Seq<char> {
    "arn:aws:iam::"@ + account + ":role/"@ + role
}

impl AwsIdentity {
    pub fn from_arn(arn: &str) -> (r: Option<Self>)
        ensures
            opt_view(r) == identity_of_arn(arn@),
    {
        let parts = split_pieces(arn, ':', 6);
        let ghost all = texts(parts@);
        if parts.len() != 6 {
            return None;
        }
        assert(all[0] == parts@[0]@ && all[2] == parts@[2]@ && all[4] == parts@[4]@ && all[5]
            == parts@[5]@);
        let of_iam = same_text(parts[2].as_str(), "iam") || same_text(parts[2].as_str(), "sts");
        if !same_text(parts[0].as_str(), "arn") || !of_iam {
            return None;
        }
        let resource = parts[5].as_str();
        let mut identity = AwsIdentity {
            account_id: parts[4].clone(),
            arn: arn.to_owned(),
            principal_type: PrincipalType::Unknown,
            role_name: None,
            user_name: None,
            session_name: None,
        };
        if let Some(value) = strip_prefix(resource, "assumed-role/") {
            if let Some((role, session)) = split_once_back(value.as_str(), '/') {
                identity.session_name = Some(session);
                identity.role_name = Some(role);
                identity.principal_type = PrincipalType::AssumedRole;
            }
        } else if let Some(value) = strip_prefix(resource, "role/") {
            identity.role_name = Some(value);
            identity.principal_type = PrincipalType::Role;
        } else if let Some(value) = strip_prefix(resource, "user/") {
            identity.user_name = Some(value);
            identity.principal_type = PrincipalType::User;
        } else if let Some(value) = strip_prefix(resource, "federated-user/") {
            identity.user_name = Some(value);
            identity.principal_type = PrincipalType::FederatedUser;
        } else if same_text(resource, "root") {
            identity.principal_type = PrincipalType::Root;
        }
        Some(identity)
    }

    pub fn display_name(&self) -> (r: &str)
        ensures
            r@ == self@.display_name(),
    {
        match &self.role_name {
            Some(role) => role.as_str(),
            None => match &self.user_name {
                Some(user) => user.as_str(),
                None => self.arn.as_str(),
            },
        }
    }

    pub fn policy_source_arn(&self) -> (r: Option<String>)
        ensures
            opt_text(r) == self@.policy_source_arn(),
    {
        match self.principal_type {
            PrincipalType::AssumedRole => match &self.role_name {
                Some(role) => {
                    let mut source = "arn:aws:iam::".to_owned();
                    source.append(self.account_id.as_str());
                    source.append(":role/");
                    source.append(role.as_str());
                    Some(source)
                },
                None => None,
            },
            PrincipalType::Role => Some(self.arn.clone()),
            PrincipalType::User => Some(self.arn.clone()),
            _ => None,
        }
    }

    /// The policy source where there is one, and the identity itself elsewhere.
    pub fn principal_arn(&self) -> (r: String)
        ensures
            r@ == self@.principal_arn(),
    {
        match self.policy_source_arn() {
            Some(source) => source,
            None => self.arn.clone(),
        }
    }
}

impl Clone for AwsIdentity {
    fn clone(&self) -> (r: Self)
        ensures
            r@ == self@,
    {
        AwsIdentity {
            account_id: self.account_id.clone(),
            arn: self.arn.clone(),
            principal_type: self.principal_type,
            role_name: copy_option(&self.role_name),
            user_name: copy_option(&self.user_name),
            session_name: copy_option(&self.session_name),
        }
    }
}

#[derive(Debug, Clone, Copy, PartialEq, Eq, Structural)]
pub enum Decision {
    Allowed,
    ExplicitDeny,
    ImplicitDeny,
    Unknown,
}

/// Which layer of policies denies a request.
#[derive(Debug, Clone, Copy, PartialEq, Eq, Structural)]
pub enum DenyCause {
    MissingIdentityAllow,
    IdentityPolicyExplicitDeny,
    PermissionsBoundary,
    ServiceControlPolicy,
    ResourceControlPolicy,
    ResourcePolicy,
    SessionPolicy,
    VpcEndpointPolicy,
    RoleTrustPolicy,
    KmsKeyPolicy,
    Condition,
    Unknown,
}

/// How a cause is shown.
pub open spec fn cause_label(cause: DenyCause) -> Seq<char> {
    match cause {
        DenyCause::MissingIdentityAllow => "no identity-based policy allows the action"@,
        DenyCause::IdentityPolicyExplicitDeny =>
            "an identity-based policy explicitly denies the action"@,
        DenyCause::PermissionsBoundary => "a permissions boundary blocks the action"@,
        DenyCause::ServiceControlPolicy => "a service control policy blocks the action"@,
        DenyCause::ResourceControlPolicy => "a resource control policy blocks the action"@,
        DenyCause::ResourcePolicy => "a resource-based policy blocks the action"@,
        DenyCause::SessionPolicy => "a session policy blocks the action"@,
        DenyCause::VpcEndpointPolicy => "a VPC endpoint policy blocks the action"@,
        DenyCause::RoleTrustPolicy => "the role trust policy blocks the action"@,
        DenyCause::KmsKeyPolicy => "the KMS key policy blocks the action"@,
        DenyCause::Condition => "a policy condition was not satisfied"@,
        DenyCause::Unknown => "the exact denial reason is unknown"@,
    }
}

impl DenyCause {
    pub fn label(&self) -> (r: &'static str)
        ensures
            r@ == cause_label(*self),
    {
        match self {
            DenyCause::MissingIdentityAllow => "no identity-based policy allows the action",
            DenyCause::IdentityPolicyExplicitDeny =>
                "an identity-based policy explicitly denies the action",
            DenyCause::PermissionsBoundary => "a permissions boundary blocks the action",
            DenyCause::ServiceControlPolicy => "a service control policy blocks the action",
            DenyCause::ResourceControlPolicy => "a resource control policy blocks the action",
            DenyCause::ResourcePolicy => "a resource-based policy blocks the action",
            DenyCause::SessionPolicy => "a session policy blocks the action",
            DenyCause::VpcEndpointPolicy => "a VPC endpoint policy blocks the action",
            DenyCause::RoleTrustPolicy => "the role trust policy blocks the action",
            DenyCause::KmsKeyPolicy => "the KMS key policy blocks the action",
            DenyCause::Condition => "a policy condition was not satisfied",
            DenyCause::Unknown => "the exact denial reason is unknown",
        }
    }
}

/// Where what is known of a denial comes from.
#[derive(Debug, Clone, Copy, PartialEq, Eq, Structural)]
pub enum EvidenceSource {
    RequestAuthorizationDetails,
    DecodedAuthorizationMessage,
    AwsError,
    PolicySimulation,
    NoEvidence,
}

#[derive(Debug, Clone, Copy, PartialEq, Eq, Structural)]
pub enum Confidence {
    Verified,
    Reported,
    Simulated,
    Incomplete,
}

/// What is known of one action on one resource.
#[derive(Debug, PartialEq, Eq)]
pub struct AuthorizationResult {
    pub action: Option<String>,
    pub resource: Option<String>,
    pub decision: Decision,
    pub cause: Option<DenyCause>,
    pub policy: Option<String>,
    pub evidence_source: EvidenceSource,
    pub confidence: Confidence,
    pub missing_context: Vec<String>,
}

pub struct AuthorizationView {
    pub action: Option<Seq<char>>,
    pub resource: Option<Seq<char>>,
    pub decision: Decision,
    pub cause: Option<DenyCause>,
    pub policy: Option<Seq<char>>,
    pub evidence_source: EvidenceSource,
    pub confidence: Confidence,
    pub missing_context: Seq<Seq<char>>,
}

impl View for AuthorizationResult {
    type V = AuthorizationView;

    open spec fn view(&self) -> AuthorizationView {
        AuthorizationView {
            action: opt_text(self.action),
            resource: opt_text(self.resource),
            decision: self.decision,
            cause: self.cause,
            policy: opt_text(self.policy),
            evidence_source: self.evidence_source,
            confidence: self.confidence,
            missing_context: texts(self.missing_context@),
        }
    }
}

impl Clone for AuthorizationResult {
    fn clone(&self) -> (r: Self)
        ensures
            r@ == self@,
    {
        AuthorizationResult {
            action: copy_option(&self.action),
            resource: copy_option(&self.resource),
            decision: self.decision,
            cause: self.cause,
            policy: copy_option(&self.policy),
            evidence_source: self.evidence_source,
            confidence: self.confidence,
            missing_context: copy_texts(&self.missing_context),
        }
    }
}

/// The parts of a role's ARN.
proof fn lemma_role_arn_pieces(account: Seq<char>, role: Seq<char>)
    requires
        !account.contains(':'),
    ensures
        pieces(role_arn(account, role), ':', 6) == seq![
            "arn"@,
            "aws"@,
            "iam"@,
            ""@,
            account,
            "role/"@ + role,
        ],
{
    reveal_with_fuel(pieces, 6);
    reveal_strlit("arn:aws:iam::");
    reveal_strlit(":role/");
    reveal_strlit("role/");
    reveal_strlit("arn");
    reveal_strlit("aws");
    reveal_strlit("iam");
    reveal_strlit("");
    let last = "role/"@ + role;
    let after_region = account.push(':') + last;
    let after_service = ""@.push(':') + after_region;
    let after_partition = "iam"@.push(':') + after_service;
    let after_arn = "aws"@.push(':') + after_partition;
    assert(role_arn(account, role) =~= "arn"@.push(':') + after_arn);
    lemma_split_first_of("arn"@, ':', after_arn);
    lemma_split_first_of("aws"@, ':', after_partition);
    lemma_split_first_of("iam"@, ':', after_service);
    lemma_split_first_of(""@, ':', after_region);
    lemma_split_first_of(account, ':', last);
    assert(pieces(role_arn(account, role), ':', 6) =~= seq![
        "arn"@,
        "aws"@,
        "iam"@,
        ""@,
        account,
        last,
    ]);
}

/// The policy source of a session is the role behind it: the ARN that is given
/// for an assumed role names a role of the same account and the same name.
pub proof fn law_policy_source_names_the_role(arn: Seq<char>)
    requires
        identity_of_arn(arn) is Some,
        identity_of_arn(arn).unwrap().principal_type == PrincipalType::AssumedRole,
    ensures
        ({
            let session = identity_of_arn(arn).unwrap();
            let source = session.policy_source_arn();
            &&& source is Some
            &&& identity_of_arn(source.unwrap()) is Some
            &&& identity_of_arn(source.unwrap()).unwrap() == (IdentityView {
                account_id: session.account_id,
                arn: source.unwrap(),
                principal_type: PrincipalType::Role,
                role_name: session.role_name,
                user_name: None,
                session_name: None,
            })
            &&& identity_of_arn(source.unwrap()).unwrap().policy_source_arn() == source
        }),
{
    let session = identity_of_arn(arn).unwrap();
    let account = session.account_id;
    let role = session.role_name.unwrap();
    lemma_pieces(arn, ':', 6, 4);
    lemma_role_arn_pieces(account, role);
    reveal_strlit("assumed-role/");
    reveal_strlit("role/");
    let resource = "role/"@ + role;
    assert(resource[0] == 'r');
    if begins_with(resource, "assumed-role/"@) {
        assert(resource.subrange(0, 13)[0] == 'a');
    }
    assert(resource.subrange(0, 5) =~= "role/"@);
    assert(resource.skip(5) =~= role);
}

/// What was simulated for an identity.
#[derive(Debug, Clone)]
pub struct PermissionReport {
    pub result: &'static str,
    pub identity: AwsIdentity,
    pub policy_source_arn: String,
    pub service: Option<String>,
    pub authorization: Vec<AuthorizationResult>,
    pub notes: Vec<String>,
}

pub struct PermissionReportView {
    pub result: Seq<char>,
    pub identity: IdentityView,
    pub policy_source_arn: Seq<char>,
    pub service: Option<Seq<char>>,
    pub authorization: Seq<AuthorizationView>,
    pub notes: Seq<Seq<char>>,
}

impl View for PermissionReport {
    type V = PermissionReportView;

    open spec fn view(&self) -> PermissionReportView {
        PermissionReportView {
            result: self.result@,
            identity: self.identity@,
            policy_source_arn: self.policy_source_arn@,
            service: opt_text(self.service),
            authorization: views(self.authorization@),
            notes: texts(self.notes@),
        }
    }
}

/// What is shown of an identity.
pub open spec fn sanitized_identity(identity: IdentityView) -> IdentityView {
    IdentityView {
        account_id: sanitized(identity.account_id),
        arn: sanitized(identity.arn),
        principal_type: identity.principal_type,
        role_name: sanitized_option(identity.role_name),
        user_name: sanitized_option(identity.user_name),
        session_name: sanitized_option(identity.session_name),
    }
}

/// What is shown of an authorization result.
pub open spec fn sanitized_result(result: AuthorizationView) -> AuthorizationView {
    AuthorizationView {
        action: sanitized_option(result.action),
        resource: sanitized_option(result.resource),
        policy: sanitized_option(result.policy),
        missing_context: sanitized_list(result.missing_context),
        ..result
    }
}

/// What is shown of each authorization result.
pub open spec fn sanitized_results(results: Seq<AuthorizationView>) -> Seq<AuthorizationView> {
    results.map_values(|result: AuthorizationView| sanitized_result(result))
}

/// The report of a simulation.
pub open spec fn permission_report(
    identity: IdentityView,
    policy_source_arn: Seq<char>,
    service: Option<Seq<char>>,
    authorization: Seq<AuthorizationView>,
    notes: Seq<Seq<char>>,
) -> PermissionReportView {
    PermissionReportView {
        result: "simulated"@,
        identity: sanitized_identity(identity),
        policy_source_arn: sanitized(policy_source_arn),
        service: sanitized_option(service),
        authorization: sanitized_results(authorization),
        notes: sanitized_list(notes),
    }
}

fn sanitize_identity(identity: &AwsIdentity) -> (r: AwsIdentity)
    ensures
        r@ == sanitized_identity(identity@),
{
    AwsIdentity {
        account_id: sanitize_generated_text(identity.account_id.as_str()),
        arn: sanitize_generated_text(identity.arn.as_str()),
        principal_type: identity.principal_type,
        role_name: sanitize_option(&identity.role_name),
        user_name: sanitize_option(&identity.user_name),
        session_name: sanitize_option(&identity.session_name),
    }
}

fn sanitize_results(results: &Vec<AuthorizationResult>) -> (r: Vec<AuthorizationResult>)
    ensures
        views(r@) == sanitized_results(views(results@)),
{
    let mut out: Vec<AuthorizationResult> = Vec::new();
    let mut i: usize = 0;
    while i < results.len()
        invariant
            i <= results@.len(),
            views(out@) =~= sanitized_results(views(results@)).take(i as int),
        decreases results.len() - i,
    {
        broadcast use lemma_views_push;

        let result = &results[i];
        out.push(
            AuthorizationResult {
                action: sanitize_option(&result.action),
                resource: sanitize_option(&result.resource),
                decision: result.decision,
                cause: result.cause,
                policy: sanitize_option(&result.policy),
                evidence_source: result.evidence_source,
                confidence: result.confidence,
                missing_context: sanitize_list(&result.missing_context),
            },
        );
        i += 1;
    }
    out
}

impl PermissionReport {
    pub fn new(
        identity: AwsIdentity,
        policy_source_arn: String,
        service: Option<String>,
        authorization: Vec<AuthorizationResult>,
        notes: Vec<String>,
    ) -> (r: Self)
        ensures
            r@ == permission_report(
                identity@,
                policy_source_arn@,
                opt_text(service),
                views(authorization@),
                texts(notes@),
            ),
    {
        PermissionReport {
            result: "simulated",
            identity: sanitize_identity(&identity),
            policy_source_arn: sanitize_generated_text(policy_source_arn.as_str()),
            service: sanitize_option(&service),
            authorization: sanitize_results(&authorization),
            notes: sanitize_list(&notes),
        }
    }
}

/// What an error message of the AWS CLI says.
#[derive(Debug, Clone, PartialEq, Eq)]
pub struct AwsErrorEvidence {
    pub service: Option<String>,
    pub operation: Option<String>,
    pub action: Option<String>,
    pub error_code: String,
    pub message: String,
    pub request_id: Option<String>,
    pub authorization_id: Option<String>,
    pub encoded_authorization_message: Option<String>,
    pub resource: Option<String>,
    pub principal_arn: Option<String>,
    pub reported_cause: Option<DenyCause>,
    pub reported_policy: Option<String>,
    pub failure_kind: FailureKind,
    pub raw_error: Vec<u8>,
}

pub struct EvidenceView {
    pub service: Option<Seq<char>>,
    pub operation: Option<Seq<char>>,
    pub action: Option<Seq<char>>,
    pub error_code: Seq<char>,
    pub message: Seq<char>,
    pub request_id: Option<Seq<char>>,
    pub authorization_id: Option<Seq<char>>,
    pub encoded_authorization_message: Option<Seq<char>>,
    pub resource: Option<Seq<char>>,
    pub principal_arn: Option<Seq<char>>,
    pub reported_cause: Option<DenyCause>,
    pub reported_policy: Option<Seq<char>>,
    pub failure_kind: FailureKind,
    pub raw_error: Seq<u8>,
}

impl View for AwsErrorEvidence {
    type V = EvidenceView;

    open spec fn view(&self) -> EvidenceView {
        EvidenceView {
            service: opt_text(self.service),
            operation: opt_text(self.operation),
            action: opt_text(self.action),
            error_code: self.error_code@,
            message: self.message@,
            request_id: opt_text(self.request_id),
            authorization_id: opt_text(self.authorization_id),
            encoded_authorization_message: opt_text(self.encoded_authorization_message),
            resource: opt_text(self.resource),
            principal_arn: opt_text(self.principal_arn),
            reported_cause: self.reported_cause,
            reported_policy: opt_text(self.reported_policy),
            failure_kind: self.failure_kind,
            raw_error: self.raw_error@,
        }
    }
}

#[derive(Debug, Clone)]
pub struct ErrorSummary {
    pub code: String,
    pub message: String,
    pub request_id: Option<String>,
}

pub struct ErrorView {
    pub code: Seq<char>,
    pub message: Seq<char>,
    pub request_id: Option<Seq<char>>,
}

impl View for ErrorSummary {
    type V = ErrorView;

    open spec fn view(&self) -> ErrorView {
        ErrorView {
            code: self.code@,
            message: self.message@,
            request_id: opt_text(self.request_id),
        }
    }
}

#[derive(Debug, Clone)]
pub struct CandidateStatement {
    pub effect: &'static str,
    pub action: String,
    pub resource: String,
}

pub struct StatementView {
    pub effect: Seq<char>,
    pub action: Seq<char>,
    pub resource: Seq<char>,
}

impl View for CandidateStatement {
    type V = StatementView;

    open spec fn view(&self) -> StatementView {
        StatementView { effect: self.effect@, action: self.action@, resource: self.resource@ }
    }
}

/// An identity policy that an administrator may consider.
#[derive(Debug, Clone)]
pub struct CandidatePolicy {
    pub version: &'static str,
    pub statement: Vec<CandidateStatement>,
}

pub struct PolicyView {
    pub version: Seq<char>,
    pub statement: Seq<StatementView>,
}

impl View for CandidatePolicy {
    type V = PolicyView;

    open spec fn view(&self) -> PolicyView {
        PolicyView { version: self.version@, statement: views(self.statement@) }
    }
}

/// What the Service Authorization Reference says of a candidate policy.
#[derive(Debug, Clone, Copy, PartialEq, Eq, Structural)]
pub enum PolicyValidationStatus {
    Valid,
    Invalid,
    Unavailable,
}

#[derive(Debug, Clone)]
pub struct PolicyValidation {
    pub status: PolicyValidationStatus,
    pub detail: String,
    pub resource_types: Vec<String>,
}

pub struct ValidationView {
    pub status: PolicyValidationStatus,
    pub detail: Seq<char>,
    pub resource_types: Seq<Seq<char>>,
}

impl View for PolicyValidation {
    type V = ValidationView;

    open spec fn view(&self) -> ValidationView {
        ValidationView {
            status: self.status,
            detail: self.detail@,
            resource_types: texts(self.resource_types@),
        }
    }
}

/// What can be done about a denial.
#[derive(Debug, Clone)]
pub struct Remediation {
    pub action: Option<String>,
    pub resource: Option<String>,
    pub guidance: String,
    pub candidate_policy: Option<CandidatePolicy>,
    pub policy_validation: Option<PolicyValidation>,
}

pub struct RemediationView {
    pub action: Option<Seq<char>>,
    pub resource: Option<Seq<char>>,
    pub guidance: Seq<char>,
    pub candidate_policy: Option<PolicyView>,
    pub policy_validation: Option<ValidationView>,
}

impl View for Remediation {
    type V = RemediationView;

    open spec fn view(&self) -> RemediationView {
        RemediationView {
            action: opt_text(self.action),
            resource: opt_text(self.resource),
            guidance: self.guidance@,
            candidate_policy: opt_view(self.candidate_policy),
            policy_validation: opt_view(self.policy_validation),
        }
    }
}

/// Why a command failed, as far as it is known.
#[derive(Debug, Clone)]
pub struct AnalysisReport {
    pub result: &'static str,
    pub exit_code: i32,
    pub failure_kind: FailureKind,
    pub identity: Option<AwsIdentity>,
    pub error: Option<ErrorSummary>,
    pub authorization: Vec<AuthorizationResult>,
    pub remediation: Vec<Remediation>,
    pub credential_source: Option<String>,
    pub notes: Vec<String>,
}

pub struct ReportView {
    pub result: Seq<char>,
    pub exit_code: i32,
    pub failure_kind: FailureKind,
    pub identity: Option<IdentityView>,
    pub error: Option<ErrorView>,
    pub authorization: Seq<AuthorizationView>,
    pub remediation: Seq<RemediationView>,
    pub credential_source: Option<Seq<char>>,
    pub notes: Seq<Seq<char>>,
}

impl View for AnalysisReport {
    type V = ReportView;

    open spec fn view(&self) -> ReportView {
        ReportView {
            result: self.result@,
            exit_code: self.exit_code,
            failure_kind: self.failure_kind,
            identity: opt_view(self.identity),
            error: opt_view(self.error),
            authorization: views(self.authorization@),
            remediation: views(self.remediation@),
            credential_source: opt_text(self.credential_source),
            notes: texts(self.notes@),
        }
    }
}

/// The word for a kind of failure.
pub open spec fn result_word(kind: FailureKind) -> Seq<char> {
    match kind {
        FailureKind::Authorization => "denied"@,
        FailureKind::Authentication => "authentication_failure"@,
        FailureKind::Configuration => "configuration_failure"@,
        FailureKind::Network => "network_failure"@,
        FailureKind::ResourceNotFound => "not_found"@,
        FailureKind::Other => "failed"@,
    }
}

/// What is advised about a denial of that cause; of an unknown cause nothing is.
pub open spec fn guidance_for(cause: DenyCause) -> Option<Seq<char>> {
    match cause {
        DenyCause::MissingIdentityAllow => Some(
            "If this access is expected, ask an administrator to add an identity-policy Allow for the reported action and resource."@,
        ),
        DenyCause::IdentityPolicyExplicitDeny => Some(
            "An additional Allow will not override this denial. Ask the identity-policy owner to review the explicit Deny."@,
        ),
        DenyCause::PermissionsBoundary => Some(
            "An identity-policy Allow alone will not fix this. Ask the boundary owner to permit the action, then verify the identity policy also allows it."@,
        ),
        DenyCause::ServiceControlPolicy => Some(
            "An identity-policy Allow will not override this. Ask the AWS Organizations administrator to review the service control policy."@,
        ),
        DenyCause::ResourceControlPolicy => Some(
            "An identity-policy Allow will not override this. Ask the AWS Organizations administrator to review the resource control policy."@,
        ),
        DenyCause::ResourcePolicy => Some(
            "Ask the resource owner to review its resource-based policy; an identity-policy change alone may not fix this."@,
        ),
        DenyCause::SessionPolicy => Some(
            "Ask whoever creates the role session to review its session policy; changing the role policy alone may not fix this session."@,
        ),
        DenyCause::VpcEndpointPolicy => Some(
            "Ask the VPC endpoint owner to review the endpoint policy; an identity-policy Allow will not override it."@,
        ),
        DenyCause::RoleTrustPolicy => Some(
            "Ask the role owner to review the role trust policy and the caller allowed to assume it."@,
        ),
        DenyCause::KmsKeyPolicy => Some(
            "Ask the KMS key administrator to review the key policy; an identity-policy Allow alone may not grant access."@,
        ),
        DenyCause::Condition => Some(
            "Review the policy conditions and the request context reported by AWS before changing permissions."@,
        ),
        DenyCause::Unknown => None,
    }
}

/// The policy that allows one action on one resource.
pub open spec fn allow_policy(action: Seq<char>, resource: Seq<char>) -> PolicyView {
    PolicyView {
        version: "2012-10-17"@,
        statement: seq![StatementView { effect: "Allow"@, action, resource }],
    }
}

/// The policy to consider for a result: only a missing identity policy, on a
/// known action and a known resource, can be mended by one.
pub open spec fn candidate_for(result: AuthorizationView) -> Option<PolicyView> {
    match (result.cause, result.action, result.resource) {
        (Some(DenyCause::MissingIdentityAllow), Some(action), Some(resource)) => Some(
            allow_policy(action, resource),
        ),
        _ => None,
    }
}

/// What can be done about one result.
pub open spec fn remediation_of(result: AuthorizationView) -> Option<RemediationView> {
    match result.cause {
        Some(cause) => match guidance_for(cause) {
            Some(guidance) => Some(
                RemediationView {
                    action: result.action,
                    resource: result.resource,
                    guidance,
                    candidate_policy: candidate_for(result),
                    policy_validation: None,
                },
            ),
            None => None,
        },
        None => None,
    }
}

/// What can be done about each of the results about which something can.
pub open spec fn remediations(results: Seq<AuthorizationView>) -> Seq<RemediationView>
    decreases results.len(),
{
    if results.len() == 0 {
        Seq::empty()
    } else {
        let front = remediations(results.drop_last());
        match remediation_of(results.last()) {
            Some(remediation) => front.push(remediation),
            None => front,
        }
    }
}

/// What is shown of an error.
pub open spec fn error_summary(evidence: EvidenceView) -> ErrorView {
    ErrorView {
        code: sanitized(evidence.error_code),
        message: sanitized(evidence.message),
        request_id: sanitized_option(evidence.request_id),
    }
}

/// The report on a failed command.
pub open spec fn analysis_report(
    exit_code: i32,
    failure_kind: FailureKind,
    identity: Option<IdentityView>,
    evidence: Option<EvidenceView>,
    authorization: Seq<AuthorizationView>,
    notes: Seq<Seq<char>>,
    credential_source: Option<Seq<char>>,
) -> ReportView {
    ReportView {
        result: result_word(failure_kind),
        exit_code,
        failure_kind,
        identity: match identity {
            Some(who) => Some(sanitized_identity(who)),
            None => None,
        },
        error: match evidence {
            Some(item) => Some(error_summary(item)),
            None => None,
        },
        authorization: sanitized_results(authorization),
        remediation: remediations(sanitized_results(authorization)),
        credential_source: sanitized_option(credential_source),
        notes: sanitized_list(notes),
    }
}

fn guidance(cause: DenyCause) -> (r: Option<&'static str>)
    ensures
        crate::text::opt_str(r) == guidance_for(cause),
{
    match cause {
        DenyCause::MissingIdentityAllow => Some(
            "If this access is expected, ask an administrator to add an identity-policy Allow for the reported action and resource.",
        ),
        DenyCause::IdentityPolicyExplicitDeny => Some(
            "An additional Allow will not override this denial. Ask the identity-policy owner to review the explicit Deny.",
        ),
        DenyCause::PermissionsBoundary => Some(
            "An identity-policy Allow alone will not fix this. Ask the boundary owner to permit the action, then verify the identity policy also allows it.",
        ),
        DenyCause::ServiceControlPolicy => Some(
            "An identity-policy Allow will not override this. Ask the AWS Organizations administrator to review the service control policy.",
        ),
        DenyCause::ResourceControlPolicy => Some(
            "An identity-policy Allow will not override this. Ask the AWS Organizations administrator to review the resource control policy.",
        ),
        DenyCause::ResourcePolicy => Some(
            "Ask the resource owner to review its resource-based policy; an identity-policy change alone may not fix this.",
        ),
        DenyCause::SessionPolicy => Some(
            "Ask whoever creates the role session to review its session policy; changing the role policy alone may not fix this session.",
        ),
        DenyCause::VpcEndpointPolicy => Some(
            "Ask the VPC endpoint owner to review the endpoint policy; an identity-policy Allow will not override it.",
        ),
        DenyCause::RoleTrustPolicy => Some(
            "Ask the role owner to review the role trust policy and the caller allowed to assume it.",
        ),
        DenyCause::KmsKeyPolicy => Some(
            "Ask the KMS key administrator to review the key policy; an identity-policy Allow alone may not grant access.",
        ),
        DenyCause::Condition => Some(
            "Review the policy conditions and the request context reported by AWS before changing permissions.",
        ),
        DenyCause::Unknown => None,
    }
}

fn candidate(result: &AuthorizationResult) -> (r: Option<CandidatePolicy>)
    ensures
        opt_view(r) == candidate_for(result@),
{
    match (result.cause, &result.action, &result.resource) {
        (Some(DenyCause::MissingIdentityAllow), Some(action), Some(resource)) => {
            let mut statement: Vec<CandidateStatement> = Vec::new();
            statement.push(
                CandidateStatement {
                    effect: "Allow",
                    action: action.clone(),
                    resource: resource.clone(),
                },
            );
            assert(views(statement@) =~= allow_policy(action@, resource@).statement);
            Some(CandidatePolicy { version: "2012-10-17", statement })
        },
        _ => None,
    }
}

/// What can be done about one result.
pub fn remediation_for(result: &AuthorizationResult) -> (r: Option<Remediation>)
    ensures
        opt_view(r) == remediation_of(result@),
{
    let cause = match result.cause {
        Some(cause) => cause,
        None => {
            return None;
        },
    };
    match guidance(cause) {
        Some(advice) => Some(
            Remediation {
                action: copy_option(&result.action),
                resource: copy_option(&result.resource),
                guidance: advice.to_owned(),
                candidate_policy: candidate(result),
                policy_validation: None,
            },
        ),
        None => None,
    }
}

fn all_remediations(results: &Vec<AuthorizationResult>) -> (r: Vec<Remediation>)
    ensures
        views(r@) == remediations(views(results@)),
{
    let mut out: Vec<Remediation> = Vec::new();
    let mut i: usize = 0;
    while i < results.len()
        invariant
            i <= results@.len(),
            views(out@) =~= remediations(views(results@).take(i as int)),
        decreases results.len() - i,
    {
        broadcast use lemma_views_push;

        assert(views(results@).take(i + 1).drop_last() =~= views(results@).take(i as int));
        if let Some(remediation) = remediation_for(&results[i]) {
            out.push(remediation);
        }
        i += 1;
    }
    assert(views(results@).take(i as int) =~= views(results@));
    out
}

/// What is shown of a validation.
pub open spec fn sanitized_validation(validation: ValidationView) -> ValidationView {
    ValidationView {
        status: validation.status,
        detail: sanitized(validation.detail),
        resource_types: sanitized_list(validation.resource_types),
    }
}

/// A remediation once its candidate policy has been validated. The validation is
/// noted where the remediation is for that action and resource and offers a
/// policy; a policy that does not fit is taken out.
pub open spec fn validated_remediation(
    remediation: RemediationView,
    action: Seq<char>,
    resource: Seq<char>,
    validation: ValidationView,
) -> RemediationView {
    if remediation.candidate_policy is Some && remediation.action == Some(action)
        && remediation.resource == Some(resource) {
        RemediationView {
            candidate_policy: if validation.status == PolicyValidationStatus::Invalid {
                None
            } else {
                remediation.candidate_policy
            },
            policy_validation: Some(sanitized_validation(validation)),
            ..remediation
        }
    } else {
        remediation
    }
}

/// A report once a candidate policy has been validated.
pub open spec fn validated_report(
    report: ReportView,
    action: Seq<char>,
    resource: Seq<char>,
    validation: ValidationView,
) -> ReportView {
    ReportView {
        remediation: report.remediation.map_values(
            |item: RemediationView| validated_remediation(item, action, resource, validation),
        ),
        ..report
    }
}

fn is_text(value: &Option<String>, text: &str) -> (r: bool)
    ensures
        r == (opt_text(*value) == Some(text@)),
{
    match value {
        Some(s) => same_text(s.as_str(), text),
        None => false,
    }
}

impl AnalysisReport {
    #[allow(clippy::too_many_arguments)]
    pub fn from_parts(
        exit_code: i32,
        failure_kind: FailureKind,
        identity: Option<AwsIdentity>,
        evidence: Option<AwsErrorEvidence>,
        authorization: Vec<AuthorizationResult>,
        notes: Vec<String>,
        credential_source: Option<String>,
    ) -> (r: Self)
        ensures
            r@ == analysis_report(
                exit_code,
                failure_kind,
                opt_view(identity),
                opt_view(evidence),
                views(authorization@),
                texts(notes@),
                opt_text(credential_source),
            ),
    {
        let result = match failure_kind {
            FailureKind::Authorization => "denied",
            FailureKind::Authentication => "authentication_failure",
            FailureKind::Configuration => "configuration_failure",
            FailureKind::Network => "network_failure",
            FailureKind::ResourceNotFound => "not_found",
            FailureKind::Other => "failed",
        };
        let error = match &evidence {
            Some(item) => Some(
                ErrorSummary {
                    code: sanitize_generated_text(item.error_code.as_str()),
                    message: sanitize_generated_text(item.message.as_str()),
                    request_id: sanitize_option(&item.request_id),
                },
            ),
            None => None,
        };
        let shown_identity = match &identity {
            Some(who) => Some(sanitize_identity(who)),
            None => None,
        };
        let shown = sanitize_results(&authorization);
        let remediation = all_remediations(&shown);
        AnalysisReport {
            result,
            exit_code,
            failure_kind,
            identity: shown_identity,
            error,
            authorization: shown,
            remediation,
            credential_source: sanitize_option(&credential_source),
            notes: sanitize_list(&notes),
        }
    }

    /// Notes what became of the candidate policy for an action on a resource.
    pub fn set_policy_validation(
        &mut self,
        action: &str,
        resource: &str,
        validation: &PolicyValidation,
    )
        ensures
            final(self)@ == validated_report(old(self)@, action@, resource@, validation@),
    {
        let mut list: Vec<Remediation> = Vec::new();
        std::mem::swap(&mut list, &mut self.remediation);
        let ghost before = views(list@);
        let mut i: usize = 0;
        while i < list.len()
            invariant
                i <= list@.len(),
                list@.len() == before.len(),
                forall|k: int|
                    0 <= k < i ==> (#[trigger] list@[k])@ == validated_remediation(
                        before[k],
                        action@,
                        resource@,
                        validation@,
                    ),
                forall|k: int| i <= k < before.len() ==> (#[trigger] list@[k])@ == before[k],
            decreases list.len() - i,
        {
            let item = &list[i];
            if item.candidate_policy.is_some() && is_text(&item.action, action) && is_text(
                &item.resource,
                resource,
            ) {
                let noted = PolicyValidation {
                    status: validation.status,
                    detail: sanitize_generated_text(validation.detail.as_str()),
                    resource_types: sanitize_list(&validation.resource_types),
                };
                let changed = &mut list[i];
                if validation.status == PolicyValidationStatus::Invalid {
                    changed.candidate_policy = None;
                }
                changed.policy_validation = Some(noted);
            }
            i += 1;
        }
        self.remediation = list;
        assert(self@.remediation =~= validated_report(
            old(self)@,
            action@,
            resource@,
            validation@,
        ).remediation);
    }
}

/// An optional text has nothing in it that can steer a terminal.
pub open spec fn option_is_clean(text: Option<Seq<char>>) -> bool {
    text is Some ==> no_controls(text.unwrap())
}

/// No text of a list has anything in it that can steer a terminal.
pub open spec fn list_is_clean(list: Seq<Seq<char>>) -> bool {
    forall|i: int| 0 <= i < list.len() ==> no_controls(#[trigger] list[i])
}

pub open spec fn identity_is_clean(identity: IdentityView) -> bool {
    &&& no_controls(identity.account_id)
    &&& no_controls(identity.arn)
    &&& option_is_clean(identity.role_name)
    &&& option_is_clean(identity.user_name)
    &&& option_is_clean(identity.session_name)
}

pub open spec fn result_is_clean(result: AuthorizationView) -> bool {
    &&& option_is_clean(result.action)
    &&& option_is_clean(result.resource)
    &&& option_is_clean(result.policy)
    &&& list_is_clean(result.missing_context)
}

pub open spec fn policy_is_clean(policy: PolicyView) -> bool {
    forall|i: int|
        0 <= i < policy.statement.len() ==> no_controls((#[trigger] policy.statement[i]).action)
            && no_controls(policy.statement[i].resource)
}

pub open spec fn remediation_is_clean(remediation: RemediationView) -> bool {
    &&& option_is_clean(remediation.action)
    &&& option_is_clean(remediation.resource)
    &&& no_controls(remediation.guidance)
    &&& remediation.candidate_policy is Some ==> policy_is_clean(
        remediation.candidate_policy.unwrap(),
    )
    &&& remediation.policy_validation is Some ==> no_controls(
        remediation.policy_validation.unwrap().detail,
    ) && list_is_clean(remediation.policy_validation.unwrap().resource_types)
}

/// No text of the report has anything in it that can steer a terminal.
pub open spec fn report_is_clean(report: ReportView) -> bool {
    &&& report.identity is Some ==> identity_is_clean(report.identity.unwrap())
    &&& report.error is Some ==> no_controls(report.error.unwrap().code) && no_controls(
        report.error.unwrap().message,
    ) && option_is_clean(report.error.unwrap().request_id)
    &&& forall|i: int|
        0 <= i < report.authorization.len() ==> result_is_clean(#[trigger] report.authorization[i])
    &&& forall|i: int|
        0 <= i < report.remediation.len() ==> remediation_is_clean(#[trigger] report.remediation[i])
    &&& option_is_clean(report.credential_source)
    &&& list_is_clean(report.notes)
}

/// The same of a permission report.
pub open spec fn permission_report_is_clean(report: PermissionReportView) -> bool {
    &&& identity_is_clean(report.identity)
    &&& no_controls(report.policy_source_arn)
    &&& option_is_clean(report.service)
    &&& forall|i: int|
        0 <= i < report.authorization.len() ==> result_is_clean(#[trigger] report.authorization[i])
    &&& list_is_clean(report.notes)
}

/// Each remediation comes from one of the results.
proof fn lemma_remediation_has_a_result(results: Seq<AuthorizationView>, i: int)
    requires
        0 <= i < remediations(results).len(),
    ensures
        exists|k: int|
            0 <= k < results.len() && remediation_of(#[trigger] results[k]) == Some(
                remediations(results)[i],
            ),
    decreases results.len(),
{
    let front = results.drop_last();
    if i < remediations(front).len() {
        lemma_remediation_has_a_result(front, i);
        let k = choose|k: int|
            0 <= k < front.len() && remediation_of(#[trigger] front[k]) == Some(
                remediations(front)[i],
            );
        assert(results[k] == front[k]);
    } else {
        assert(remediation_of(results[results.len() - 1]) is Some);
    }
}

/// Generated diagnostics hold no terminal control characters, whatever AWS, the
/// command or the environment put into their parts.
pub proof fn law_reports_are_clean(
    exit_code: i32,
    failure_kind: FailureKind,
    identity: Option<IdentityView>,
    evidence: Option<EvidenceView>,
    authorization: Seq<AuthorizationView>,
    notes: Seq<Seq<char>>,
    credential_source: Option<Seq<char>>,
)
    ensures
        report_is_clean(
            analysis_report(
                exit_code,
                failure_kind,
                identity,
                evidence,
                authorization,
                notes,
                credential_source,
            ),
        ),
{
    let report = analysis_report(
        exit_code,
        failure_kind,
        identity,
        evidence,
        authorization,
        notes,
        credential_source,
    );
    let shown = report.authorization;
    assert forall|i: int| 0 <= i < report.remediation.len() implies remediation_is_clean(
        #[trigger] report.remediation[i],
    ) by {
        lemma_remediation_has_a_result(shown, i);
        let k = choose|k: int|
            0 <= k < shown.len() && remediation_of(#[trigger] shown[k]) == Some(
                report.remediation[i],
            );
        assert(result_is_clean(shown[k]));
        lemma_guidance_is_clean(shown[k].cause.unwrap());
    }
}

/// Permission reports hold no terminal control characters either.
pub proof fn law_permission_reports_are_clean(
    identity: IdentityView,
    policy_source_arn: Seq<char>,
    service: Option<Seq<char>>,
    authorization: Seq<AuthorizationView>,
    notes: Seq<Seq<char>>,
)
    ensures
        permission_report_is_clean(
            permission_report(identity, policy_source_arn, service, authorization, notes),
        ),
{
}

/// A validated report stays free of terminal control characters.
pub proof fn law_validated_reports_are_clean(
    report: ReportView,
    action: Seq<char>,
    resource: Seq<char>,
    validation: ValidationView,
)
    requires
        report_is_clean(report),
    ensures
        report_is_clean(validated_report(report, action, resource, validation)),
{
    let after = validated_report(report, action, resource, validation);
    assert forall|i: int| 0 <= i < after.remediation.len() implies remediation_is_clean(
        #[trigger] after.remediation[i],
    ) by {
        assert(remediation_is_clean(report.remediation[i]));
    }
}

/// A policy is offered for nothing but a missing identity policy: each candidate
/// of a report allows exactly the action and the resource of a result of that
/// report whose cause is that no identity policy allows it.
pub proof fn law_candidates_answer_missing_allows(
    exit_code: i32,
    failure_kind: FailureKind,
    identity: Option<IdentityView>,
    evidence: Option<EvidenceView>,
    authorization: Seq<AuthorizationView>,
    notes: Seq<Seq<char>>,
    credential_source: Option<Seq<char>>,
)
    ensures
        ({
            let report = analysis_report(
                exit_code,
                failure_kind,
                identity,
                evidence,
                authorization,
                notes,
                credential_source,
            );
            forall|i: int|
                0 <= i < report.remediation.len() && (
                #[trigger] report.remediation[i]).candidate_policy is Some ==> exists|k: int|
                    0 <= k < report.authorization.len() && ({
                        let result = #[trigger] report.authorization[k];
                        &&& result.cause == Some(DenyCause::MissingIdentityAllow)
                        &&& result.action is Some
                        &&& result.resource is Some
                        &&& report.remediation[i].action == result.action
                        &&& report.remediation[i].resource == result.resource
                        &&& report.remediation[i].candidate_policy == Some(
                            allow_policy(result.action.unwrap(), result.resource.unwrap()),
                        )
                    })
        }),
{
    let report = analysis_report(
        exit_code,
        failure_kind,
        identity,
        evidence,
        authorization,
        notes,
        credential_source,
    );
    assert forall|i: int|
        0 <= i < report.remediation.len() && (
        #[trigger] report.remediation[i]).candidate_policy is Some implies exists|k: int|
        0 <= k < report.authorization.len() && ({
            let result = #[trigger] report.authorization[k];
            &&& result.cause == Some(DenyCause::MissingIdentityAllow)
            &&& result.action is Some
            &&& result.resource is Some
            &&& report.remediation[i].action == result.action
            &&& report.remediation[i].resource == result.resource
            &&& report.remediation[i].candidate_policy == Some(
                allow_policy(result.action.unwrap(), result.resource.unwrap()),
            )
        }) by {
        lemma_remediation_has_a_result(report.authorization, i);
    }
}

/// A confirmed mismatch removes the candidate policy, and nothing else does: of
/// the remediations for that action and resource none offers a policy after a
/// mismatch, and each offers what it did after any other outcome.
pub proof fn law_mismatch_removes_the_candidate(
    report: ReportView,
    action: Seq<char>,
    resource: Seq<char>,
    validation: ValidationView,
    i: int,
)
    requires
        0 <= i < report.remediation.len(),
        report.remediation[i].action == Some(action),
        report.remediation[i].resource == Some(resource),
    ensures
        ({
            let after = validated_report(report, action, resource, validation).remediation[i];
            &&& validation.status == PolicyValidationStatus::Invalid ==> after.candidate_policy is None
            &&& validation.status != PolicyValidationStatus::Invalid ==> after.candidate_policy
                == report.remediation[i].candidate_policy
            &&& report.remediation[i].candidate_policy is Some ==> after.policy_validation == Some(
                sanitized_validation(validation),
            )
        }),
{
}

/// Each kind of failure has a result of its own.
pub proof fn law_results_are_distinct(first: FailureKind, second: FailureKind)
    ensures
        result_word(first) == result_word(second) ==> first == second,
{
    reveal_strlit("denied");
    reveal_strlit("authentication_failure");
    reveal_strlit("configuration_failure");
    reveal_strlit("network_failure");
    reveal_strlit("not_found");
    reveal_strlit("failed");
    let (word, other) = (result_word(first), result_word(second));
    assert(word.len() == other.len() && word[0] == other[0] ==> first == second);
}

proof fn lemma_arn_pieces(
    partition: Seq<char>,
    service: Seq<char>,
    region: Seq<char>,
    account: Seq<char>,
    principal: Seq<char>,
)
    requires
        !partition.contains(':'),
        !service.contains(':'),
        !region.contains(':'),
        !account.contains(':'),
    ensures
        pieces(arn_of(partition, service, region, account, principal), ':', 6) == seq![
            "arn"@,
            partition,
            service,
            region,
            account,
            principal,
        ],
{
    reveal_with_fuel(pieces, 6);
    reveal_strlit("arn:");
    reveal_strlit("arn");
    let after_region = account.push(':') + principal;
    let after_service = region.push(':') + after_region;
    let after_partition = service.push(':') + after_service;
    let after_arn = partition.push(':') + after_partition;
    assert(arn_of(partition, service, region, account, principal) =~= "arn"@.push(':') + after_arn);
    assert(!"arn"@.contains(':'));
    lemma_split_first_of("arn"@, ':', after_arn);
    lemma_split_first_of(partition, ':', after_partition);
    lemma_split_first_of(service, ':', after_service);
    lemma_split_first_of(region, ':', after_region);
    lemma_split_first_of(account, ':', principal);
    assert(pieces(arn_of(partition, service, region, account, principal), ':', 6) =~= seq![
        "arn"@,
        partition,
        service,
        region,
        account,
        principal,
    ]);
}

/// An ARN, put together of its parts.
pub open spec fn arn_of(
    partition: Seq<char>,
    service: Seq<char>,
    region: Seq<char>,
    account: Seq<char>,
    principal: Seq<char>,
) -> Seq<char> {
    "arn:"@ + partition + seq![':'] + service + seq![':'] + region + seq![':'] + account + seq![
        ':',
    ] + principal
}

/// An ARN names an identity where it is one of IAM or STS: in the account that is its
/// fifth part, under the ARN itself.
pub proof fn law_arns_name_identities(
    partition: Seq<char>,
    service: Seq<char>,
    region: Seq<char>,
    account: Seq<char>,
    principal: Seq<char>,
)
    requires
        !partition.contains(':'),
        !service.contains(':'),
        !region.contains(':'),
        !account.contains(':'),
    ensures
        ({
            let arn = arn_of(partition, service, region, account, principal);
            &&& identity_of_arn(arn) is Some <==> service == "iam"@ || service == "sts"@
            &&& identity_of_arn(arn) matches Some(who) ==> who.account_id == account && who.arn
                == arn
        }),
{
    lemma_arn_pieces(partition, service, region, account, principal);
}

/// Nothing but such an ARN names an identity: it falls apart at five colons, starts
/// with `arn` and is of IAM or STS.
pub proof fn law_only_arns_name_identities(arn: Seq<char>)
    ensures
        identity_of_arn(arn) matches Some(who) ==> exists|
            partition: Seq<char>,
            service: Seq<char>,
            region: Seq<char>,
            principal: Seq<char>,
        |
            arn == #[trigger] arn_of(partition, service, region, who.account_id, principal) && (
            service == "iam"@ || service == "sts"@) && !service.contains(':')
                && !who.account_id.contains(':') && !partition.contains(':') && !region.contains(
                ':',
            ),
{
    if let Some(who) = identity_of_arn(arn) {
        let parts = pieces(arn, ':', 6);
        law_pieces_make_the_text(arn, ':', 6);
        reveal_with_fuel(joined, 7);
        reveal_strlit("arn:");
        reveal_strlit("arn");
        assert(parts =~= seq![parts[0], parts[1], parts[2], parts[3], parts[4], parts[5]]);
        assert(!parts[1].contains(':') && !parts[2].contains(':') && !parts[3].contains(':')
            && !parts[4].contains(':'));
        assert(who.account_id == parts[4]);
        let made = arn_of(parts[1], parts[2], parts[3], who.account_id, parts[5]);
        let p5 = parts.drop_last();
        let p4 = p5.drop_last();
        let p3 = p4.drop_last();
        let p2 = p3.drop_last();
        let p1 = p2.drop_last();
        assert(p1.len() == 1 && p1[0] == parts[0]);
        assert(joined(p1, seq![':']) == parts[0]);
        assert(joined(p2, seq![':']) == parts[0] + seq![':'] + parts[1]);
        assert(joined(p3, seq![':']) == joined(p2, seq![':']) + seq![':'] + parts[2]);
        assert(joined(p4, seq![':']) == joined(p3, seq![':']) + seq![':'] + parts[3]);
        assert(joined(p5, seq![':']) == joined(p4, seq![':']) + seq![':'] + parts[4]);
        assert(joined(parts, seq![':']) == joined(p5, seq![':']) + seq![':'] + parts[5]);
        assert(arn =~= made);
    }
}

proof fn lemma_starts_otherwise(resource: Seq<char>, prefix: Seq<char>, at: int)
    requires
        0 <= at < prefix.len(),
        at < resource.len() ==> resource[at] != prefix[at],
    ensures
        behind_prefix(resource, prefix) is None,
{
    if begins_with(resource, prefix) {
        assert(resource.subrange(0, prefix.len() as int)[at] == resource[at]);
    }
}

proof fn lemma_assumed_role(
    arn: Seq<char>,
    account: Seq<char>,
    name: Seq<char>,
    session: Seq<char>,
)
    requires
        !session.contains('/'),
    ensures
        principal_of(arn, account, "assumed-role/"@ + name + seq!['/'] + session) == (IdentityView {
            account_id: account,
            arn,
            principal_type: PrincipalType::AssumedRole,
            role_name: Some(name),
            user_name: None,
            session_name: Some(session),
        }),
{
    let tail = name + seq!['/'] + session;
    let resource = "assumed-role/"@ + name + seq!['/'] + session;
    assert(resource =~= "assumed-role/"@ + tail);
    law_parts_stand_inside(Seq::empty(), "assumed-role/"@, tail, resource);
    law_text_falls_apart_at_the_last(name, '/', session);
}

proof fn lemma_role(arn: Seq<char>, account: Seq<char>, name: Seq<char>)
    ensures
        principal_of(arn, account, "role/"@ + name) == (IdentityView {
            account_id: account,
            arn,
            principal_type: PrincipalType::Role,
            role_name: Some(name),
            user_name: None,
            session_name: None,
        }),
{
    reveal_strlit("assumed-role/");
    reveal_strlit("role/");
    let resource = "role/"@ + name;
    assert(resource[0] == 'r');
    lemma_starts_otherwise(resource, "assumed-role/"@, 0);
    law_parts_stand_inside(Seq::empty(), "role/"@, name, resource);
}

proof fn lemma_user(arn: Seq<char>, account: Seq<char>, name: Seq<char>)
    ensures
        principal_of(arn, account, "user/"@ + name) == (IdentityView {
            account_id: account,
            arn,
            principal_type: PrincipalType::User,
            role_name: None,
            user_name: Some(name),
            session_name: None,
        }),
{
    reveal_strlit("assumed-role/");
    reveal_strlit("role/");
    reveal_strlit("user/");
    let resource = "user/"@ + name;
    assert(resource[0] == 'u');
    lemma_starts_otherwise(resource, "assumed-role/"@, 0);
    lemma_starts_otherwise(resource, "role/"@, 0);
    law_parts_stand_inside(Seq::empty(), "user/"@, name, resource);
}

proof fn lemma_federated_user(arn: Seq<char>, account: Seq<char>, name: Seq<char>)
    ensures
        principal_of(arn, account, "federated-user/"@ + name) == (IdentityView {
            account_id: account,
            arn,
            principal_type: PrincipalType::FederatedUser,
            role_name: None,
            user_name: Some(name),
            session_name: None,
        }),
{
    reveal_strlit("assumed-role/");
    reveal_strlit("role/");
    reveal_strlit("user/");
    reveal_strlit("federated-user/");
    let resource = "federated-user/"@ + name;
    assert(resource[0] == 'f');
    lemma_starts_otherwise(resource, "assumed-role/"@, 0);
    lemma_starts_otherwise(resource, "role/"@, 0);
    lemma_starts_otherwise(resource, "user/"@, 0);
    law_parts_stand_inside(Seq::empty(), "federated-user/"@, name, resource);
}

proof fn lemma_root(arn: Seq<char>, account: Seq<char>)
    ensures
        principal_of(arn, account, "root"@) == (IdentityView {
            account_id: account,
            arn,
            principal_type: PrincipalType::Root,
            role_name: None,
            user_name: None,
            session_name: None,
        }),
{
    reveal_strlit("assumed-role/");
    reveal_strlit("role/");
    reveal_strlit("user/");
    reveal_strlit("federated-user/");
    reveal_strlit("root");
    lemma_starts_otherwise("root"@, "assumed-role/"@, 0);
    lemma_starts_otherwise("root"@, "role/"@, 2);
    lemma_starts_otherwise("root"@, "user/"@, 0);
    lemma_starts_otherwise("root"@, "federated-user/"@, 0);
}

/// The last part of an ARN names the principal: a session of a role by the role and,
/// behind the last slash, the session; a role, a user or a federated user by name; or
/// the root of the account.
pub proof fn law_principals_are_named(
    partition: Seq<char>,
    service: Seq<char>,
    region: Seq<char>,
    account: Seq<char>,
    name: Seq<char>,
    session: Seq<char>,
)
    requires
        service == "iam"@ || service == "sts"@,
        !partition.contains(':'),
        !region.contains(':'),
        !account.contains(':'),
        !session.contains('/'),
    ensures
        ({
            let nobody = IdentityView {
                account_id: account,
                arn: arn_of(partition, service, region, account, "root"@),
                principal_type: PrincipalType::Root,
                role_name: None,
                user_name: None,
                session_name: None,
            };
            let assumed = arn_of(
                partition,
                service,
                region,
                account,
                "assumed-role/"@ + name + seq!['/'] + session,
            );
            let role = arn_of(partition, service, region, account, "role/"@ + name);
            let user = arn_of(partition, service, region, account, "user/"@ + name);
            let federated = arn_of(partition, service, region, account, "federated-user/"@ + name);
            &&& identity_of_arn(nobody.arn) == Some(nobody)
            &&& identity_of_arn(assumed) == Some(
                IdentityView {
                    arn: assumed,
                    principal_type: PrincipalType::AssumedRole,
                    role_name: Some(name),
                    session_name: Some(session),
                    ..nobody
                },
            )
            &&& identity_of_arn(role) == Some(
                IdentityView {
                    arn: role,
                    principal_type: PrincipalType::Role,
                    role_name: Some(name),
                    ..nobody
                },
            )
            &&& identity_of_arn(user) == Some(
                IdentityView {
                    arn: user,
                    principal_type: PrincipalType::User,
                    user_name: Some(name),
                    ..nobody
                },
            )
            &&& identity_of_arn(federated) == Some(
                IdentityView {
                    arn: federated,
                    principal_type: PrincipalType::FederatedUser,
                    user_name: Some(name),
                    ..nobody
                },
            )
        }),
{
    let root = arn_of(partition, service, region, account, "root"@);
    let assumed = "assumed-role/"@ + name + seq!['/'] + session;
    reveal_strlit("iam");
    reveal_strlit("sts");
    assert(!service.contains(':'));
    lemma_arn_pieces(partition, service, region, account, assumed);
    lemma_arn_pieces(partition, service, region, account, "role/"@ + name);
    lemma_arn_pieces(partition, service, region, account, "user/"@ + name);
    lemma_arn_pieces(partition, service, region, account, "federated-user/"@ + name);
    lemma_arn_pieces(partition, service, region, account, "root"@);
    lemma_assumed_role(
        arn_of(partition, service, region, account, assumed),
        account,
        name,
        session,
    );
    lemma_role(arn_of(partition, service, region, account, "role/"@ + name), account, name);
    lemma_user(arn_of(partition, service, region, account, "user/"@ + name), account, name);
    lemma_federated_user(
        arn_of(partition, service, region, account, "federated-user/"@ + name),
        account,
        name,
    );
    lemma_root(root, account);
}

/// A principal that is named in no such way is unknown, and has no name.
pub proof fn law_other_principals_are_unknown(
    arn: Seq<char>,
    account: Seq<char>,
    resource: Seq<char>,
)
    requires
        resource != "root"@,
        !begins_with(resource, "role/"@),
        !begins_with(resource, "user/"@),
        !begins_with(resource, "federated-user/"@),
        behind_prefix(resource, "assumed-role/"@) matches Some(tail) ==> !tail.contains('/'),
    ensures
        principal_of(arn, account, resource) == (IdentityView {
            account_id: account,
            arn,
            principal_type: PrincipalType::Unknown,
            role_name: None,
            user_name: None,
            session_name: None,
        }),
{
    if let Some(tail) = behind_prefix(resource, "assumed-role/"@) {
        law_text_without_it_stays_whole(tail, '/');
    }
}

/// An identity is shown by its role, else by its user, else by its ARN. The policies of
/// a user or a role apply to itself, those of a role to its sessions, and no policies
/// are told for anyone else.
pub proof fn law_identities_have_policy_sources(who: IdentityView)
    ensures
        who.role_name matches Some(role) ==> who.display_name() == role,
        who.role_name is None ==> (who.user_name matches Some(user) ==> who.display_name() == user),
        who.role_name is None && who.user_name is None ==> who.display_name() == who.arn,
        who.principal_type == PrincipalType::User ==> who.policy_source_arn() == Some(who.arn),
        who.principal_type == PrincipalType::Role ==> who.policy_source_arn() == Some(who.arn),
        who.principal_type == PrincipalType::AssumedRole ==> (who.role_name matches Some(role)
            ==> who.policy_source_arn() == Some(
            "arn:aws:iam::"@ + who.account_id + ":role/"@ + role,
        )),
        who.policy_source_arn() is Some ==> who.principal_type == PrincipalType::User
            || who.principal_type == PrincipalType::Role || (who.principal_type
            == PrincipalType::AssumedRole && who.role_name is Some),
        who.policy_source_arn() matches Some(source) ==> who.principal_arn() == source,
        who.policy_source_arn() is None ==> who.principal_arn() == who.arn,
{
}

/// What is shown of an identity is still that identity, each of its texts for itself.
pub proof fn law_shown_identities_are_the_same(who: IdentityView)
    ensures
        sanitized_identity(who).account_id == sanitized(who.account_id),
        sanitized_identity(who).arn == sanitized(who.arn),
        sanitized_identity(who).principal_type == who.principal_type,
        sanitized_identity(who).role_name == match who.role_name {
            Some(name) => Some(sanitized(name)),
            None => None,
        },
        sanitized_identity(who).user_name == match who.user_name {
            Some(name) => Some(sanitized(name)),
            None => None,
        },
        sanitized_identity(who).session_name == match who.session_name {
            Some(name) => Some(sanitized(name)),
            None => None,
        },
{
}

/// What is shown of a result is still that result: what was decided and why, on what
/// evidence and how sure, and its texts each for itself.
pub proof fn law_shown_results_are_the_same(results: Seq<AuthorizationView>, i: int)
    requires
        0 <= i < results.len(),
    ensures
        ({
            let shown = sanitized_results(results)[i];
            let result = results[i];
            &&& sanitized_results(results).len() == results.len()
            &&& shown.decision == result.decision
            &&& shown.cause == result.cause
            &&& shown.evidence_source == result.evidence_source
            &&& shown.confidence == result.confidence
            &&& shown.action == match result.action {
                Some(text) => Some(sanitized(text)),
                None => None,
            }
            &&& shown.resource == match result.resource {
                Some(text) => Some(sanitized(text)),
                None => None,
            }
            &&& shown.policy == match result.policy {
                Some(text) => Some(sanitized(text)),
                None => None,
            }
            &&& shown.missing_context.len() == result.missing_context.len()
            &&& forall|k: int|
                0 <= k < result.missing_context.len() ==> #[trigger] shown.missing_context[k]
                    == sanitized(result.missing_context[k])
        }),
{
}

/// Each cause has its words, which name the layer that denies.
pub proof fn law_causes_are_named()
    ensures
        cause_label(DenyCause::MissingIdentityAllow) == "no identity-based policy allows the action"@,
        cause_label(DenyCause::IdentityPolicyExplicitDeny) == "an identity-based policy explicitly denies the action"@,
        cause_label(DenyCause::PermissionsBoundary) == "a permissions boundary blocks the action"@,
        cause_label(DenyCause::ServiceControlPolicy) == "a service control policy blocks the action"@,
        cause_label(DenyCause::ResourceControlPolicy) == "a resource control policy blocks the action"@,
        cause_label(DenyCause::ResourcePolicy) == "a resource-based policy blocks the action"@,
        cause_label(DenyCause::SessionPolicy) == "a session policy blocks the action"@,
        cause_label(DenyCause::VpcEndpointPolicy) == "a VPC endpoint policy blocks the action"@,
        cause_label(DenyCause::RoleTrustPolicy) == "the role trust policy blocks the action"@,
        cause_label(DenyCause::KmsKeyPolicy) == "the KMS key policy blocks the action"@,
        cause_label(DenyCause::Condition) == "a policy condition was not satisfied"@,
        cause_label(DenyCause::Unknown) == "the exact denial reason is unknown"@,
{
}

/// Of every cause but an unknown one it is told who can do something about it.
pub proof fn law_advice_fits_the_cause()
    ensures
        guidance_for(DenyCause::MissingIdentityAllow) == Some(
            "If this access is expected, ask an administrator to add an identity-policy Allow for the reported action and resource."@,
        ),
        guidance_for(DenyCause::IdentityPolicyExplicitDeny) == Some(
            "An additional Allow will not override this denial. Ask the identity-policy owner to review the explicit Deny."@,
        ),
        guidance_for(DenyCause::PermissionsBoundary) == Some(
            "An identity-policy Allow alone will not fix this. Ask the boundary owner to permit the action, then verify the identity policy also allows it."@,
        ),
        guidance_for(DenyCause::ServiceControlPolicy) == Some(
            "An identity-policy Allow will not override this. Ask the AWS Organizations administrator to review the service control policy."@,
        ),
        guidance_for(DenyCause::ResourceControlPolicy) == Some(
            "An identity-policy Allow will not override this. Ask the AWS Organizations administrator to review the resource control policy."@,
        ),
        guidance_for(DenyCause::ResourcePolicy) == Some(
            "Ask the resource owner to review its resource-based policy; an identity-policy change alone may not fix this."@,
        ),
        guidance_for(DenyCause::SessionPolicy) == Some(
            "Ask whoever creates the role session to review its session policy; changing the role policy alone may not fix this session."@,
        ),
        guidance_for(DenyCause::VpcEndpointPolicy) == Some(
            "Ask the VPC endpoint owner to review the endpoint policy; an identity-policy Allow will not override it."@,
        ),
        guidance_for(DenyCause::RoleTrustPolicy) == Some(
            "Ask the role owner to review the role trust policy and the caller allowed to assume it."@,
        ),
        guidance_for(DenyCause::KmsKeyPolicy) == Some(
            "Ask the KMS key administrator to review the key policy; an identity-policy Allow alone may not grant access."@,
        ),
        guidance_for(DenyCause::Condition) == Some(
            "Review the policy conditions and the request context reported by AWS before changing permissions."@,
        ),
        guidance_for(DenyCause::Unknown) is None,
{
}

/// Each kind of failure has its word.
pub proof fn law_failures_have_their_words()
    ensures
        result_word(FailureKind::Authorization) == "denied"@,
        result_word(FailureKind::Authentication) == "authentication_failure"@,
        result_word(FailureKind::Configuration) == "configuration_failure"@,
        result_word(FailureKind::Network) == "network_failure"@,
        result_word(FailureKind::ResourceNotFound) == "not_found"@,
        result_word(FailureKind::Other) == "failed"@,
{
}

/// Something is advised about a result just where its cause is known. The advice is for
/// the result's action and resource, and offers a policy just where no identity policy
/// allows a known action on a known resource: one that allows that action on that
/// resource and nothing else.
pub proof fn law_advice_is_for_the_result(result: AuthorizationView)
    ensures
        remediation_of(result) is Some <==> result.cause is Some && result.cause != Some(
            DenyCause::Unknown,
        ),
        remediation_of(result) matches Some(advice) ==> {
            &&& advice.action == result.action
            &&& advice.resource == result.resource
            &&& guidance_for(result.cause.unwrap()) == Some(advice.guidance)
            &&& advice.policy_validation is None
            &&& advice.candidate_policy is Some <==> result.cause == Some(
                DenyCause::MissingIdentityAllow,
            ) && result.action is Some && result.resource is Some
            &&& advice.candidate_policy matches Some(policy) ==> {
                &&& policy.version == "2012-10-17"@
                &&& policy.statement.len() == 1
                &&& policy.statement[0].effect == "Allow"@
                &&& Some(policy.statement[0].action) == result.action
                &&& Some(policy.statement[0].resource) == result.resource
            }
        },
{
}

proof fn lemma_remediations(first: Seq<AuthorizationView>, second: Seq<AuthorizationView>)
    ensures
        remediations(first + second) == remediations(first) + remediations(second),
    decreases second.len(),
{
    if second.len() == 0 {
        assert(first + second =~= first);
        assert(remediations(first) + remediations(second) =~= remediations(first));
    } else {
        assert((first + second).drop_last() =~= first + second.drop_last());
        lemma_remediations(first, second.drop_last());
        assert(remediations(first + second) =~= remediations(first) + remediations(second));
    }
}

/// What is advised stands in the order of the results that it is about, once for each
/// about which something is.
pub proof fn law_advice_stands_in_order(
    first: Seq<AuthorizationView>,
    second: Seq<AuthorizationView>,
    one: AuthorizationView,
)
    ensures
        remediations(first + second) == remediations(first) + remediations(second),
        remediations(seq![one]) == match remediation_of(one) {
            Some(advice) => seq![advice],
            None => Seq::empty(),
        },
{
    lemma_remediations(first, second);
    reveal_with_fuel(remediations, 2);
    assert(seq![one].drop_last() =~= Seq::<AuthorizationView>::empty());
    assert(remediations(seq![one]) =~= match remediation_of(one) {
        Some(advice) => seq![advice],
        None => Seq::empty(),
    });
}

/// A report tells the exit code and the kind of the failure as they are, the error by
/// its code, its message and the identifier of its request, each result, each note, and
/// what is advised about the results as they are shown.
pub proof fn law_reports_tell_their_parts(
    exit_code: i32,
    kind: FailureKind,
    identity: Option<IdentityView>,
    evidence: Option<EvidenceView>,
    authorization: Seq<AuthorizationView>,
    notes: Seq<Seq<char>>,
    credential_source: Option<Seq<char>>,
)
    ensures
        ({
            let report = analysis_report(
                exit_code,
                kind,
                identity,
                evidence,
                authorization,
                notes,
                credential_source,
            );
            &&& report.exit_code == exit_code
            &&& report.failure_kind == kind
            &&& report.result == result_word(kind)
            &&& report.identity is Some <==> identity is Some
            &&& identity matches Some(who) ==> report.identity == Some(sanitized_identity(who))
            &&& report.error is Some <==> evidence is Some
            &&& evidence matches Some(item) ==> {
                let error = report.error.unwrap();
                &&& error.code == sanitized(item.error_code)
                &&& error.message == sanitized(item.message)
                &&& error.request_id == match item.request_id {
                    Some(id) => Some(sanitized(id)),
                    None => None,
                }
            }
            &&& report.authorization == sanitized_results(authorization)
            &&& report.remediation == remediations(report.authorization)
            &&& report.notes.len() == notes.len()
            &&& forall|i: int| 0 <= i < notes.len() ==> #[trigger] report.notes[i] == sanitized(notes[i])
            &&& report.credential_source == match credential_source {
                Some(text) => Some(sanitized(text)),
                None => None,
            }
        }),
{
}

/// A permission report is one of a simulation, of that identity and the user or role
/// whose policies were simulated, with each result and each note.
pub proof fn law_permission_reports_tell_their_parts(
    identity: IdentityView,
    source: Seq<char>,
    service: Option<Seq<char>>,
    authorization: Seq<AuthorizationView>,
    notes: Seq<Seq<char>>,
)
    ensures
        ({
            let report = permission_report(identity, source, service, authorization, notes);
            &&& report.result == "simulated"@
            &&& report.identity == sanitized_identity(identity)
            &&& report.policy_source_arn == sanitized(source)
            &&& report.service == match service {
                Some(name) => Some(sanitized(name)),
                None => None,
            }
            &&& report.authorization == sanitized_results(authorization)
            &&& report.notes.len() == notes.len()
            &&& forall|i: int| 0 <= i < notes.len() ==> #[trigger] report.notes[i] == sanitized(notes[i])
        }),
{
}

/// A validation is noted with the advice that offers a policy for that action and that
/// resource, as it was made; all other advice stays as it is, and so does the rest of
/// the report.
pub proof fn law_validations_are_noted_where_they_belong(
    report: ReportView,
    action: Seq<char>,
    resource: Seq<char>,
    validation: ValidationView,
    i: int,
)
    requires
        0 <= i < report.remediation.len(),
    ensures
        ({
            let after = validated_report(report, action, resource, validation);
            let before = report.remediation[i];
            let meant = before.action == Some(action) && before.resource == Some(resource)
                && before.candidate_policy is Some;
            &&& after.remediation.len() == report.remediation.len()
            &&& !meant ==> after.remediation[i] == before
            &&& meant ==> {
                let noted = after.remediation[i].policy_validation;
                &&& noted is Some
                &&& noted.unwrap().status == validation.status
                &&& noted.unwrap().detail == sanitized(validation.detail)
                &&& noted.unwrap().resource_types.len() == validation.resource_types.len()
                &&& forall|k: int|
                    0 <= k < validation.resource_types.len()
                        ==> #[trigger] noted.unwrap().resource_types[k] == sanitized(
                        validation.resource_types[k],
                    )
                &&& after.remediation[i].action == before.action
                &&& after.remediation[i].resource == before.resource
                &&& after.remediation[i].guidance == before.guidance
            }
            &&& after.result == report.result && after.exit_code == report.exit_code
                && after.failure_kind == report.failure_kind && after.identity == report.identity
                && after.error == report.error && after.authorization == report.authorization
                && after.credential_source == report.credential_source && after.notes
                == report.notes
        }),
{
}

} // verus!
