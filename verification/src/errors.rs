//! Reads what the AWS CLI says about a failure.
use vstd::prelude::*;
use vstd::slice::slice_to_vec;
use vstd::utf8::encode_utf8;

use crate::json::{document_string, find_text, text_under, Json};
use crate::model::{opt_view, AwsErrorEvidence, DenyCause, EvidenceView, FailureKind};
use crate::outside::{
    decode_lossy, find_group, json_value, lower_case, parse_json, regex_group, to_lower, utf8_lossy,
};
use crate::text::{
    after_last, behind_last, chars_of, contains, copy_option, law_text_falls_apart_at_the_first,
    law_text_falls_apart_at_the_last, law_text_without_it_stays_whole, occurs_in, opt_text, part_of,
    same_text, split_first, split_once, strs, trim, trimmed,
};

verus! {

pub const CODE_PATTERN: &'static str = r"(?i)an error occurred \(([^)]+)\)";

pub const CLI_CODE_PATTERN: &'static str = r"(?m)^aws: \[ERROR\]: An error occurred \(([^)]+)\)";

pub const MESSAGE_PATTERN: &'static str =
    r"(?s)(?:when calling the [A-Za-z0-9]+ operation|an error occurred \([^)]+\)):\s*(.+)";

pub const OPERATION_PATTERN: &'static str = r"(?i)when calling the ([A-Za-z0-9]+) operation";

pub const REQUEST_ID_PATTERN: &'static str =
    r"(?i)request(?:\s+|_)?id\s*[:=]\s*([A-Za-z0-9-]+)";

pub const AUTHORIZATION_ID_PATTERN: &'static str =
    r"(?i)authorization\s+id(?:entifier)?\s*:\s*([A-Za-z0-9_+=./:-]+)";

pub const ENCODED_MESSAGE_PATTERN: &'static str =
    r"(?i)encoded authorization failure message\s*:\s*([A-Za-z0-9_+=./-]+)";

pub const ACTION_PATTERN: &'static str =
    r"(?i)(?:not authorized to perform|not authorized to perform:|perform action)\s*:?[[:space:]]*([a-z0-9-]+:[A-Za-z0-9*]+)";

pub const RESOURCE_PATTERN: &'static str =
    r"(?i)(?:on resource(?:s)?|resource)\s*:\s*((?:arn:[^\s,;]+)|\*)";

pub const PRINCIPAL_PATTERN: &'static str =
    r"(?i)(?:user|principal)\s*:\s*(arn:aws(?:-[a-z]+)*:(?:iam|sts)::[0-9]{12}:[^\s,]+)";

pub const POLICY_PATTERN: &'static str =
    r"arn:aws(?:-[a-z]+)*:(?:iam|organizations)::[^\s,;]+(?:policy|policy/)[^\s,;.]+";

/// What the first group of a pattern covers in a text, without white space at
/// its ends.
pub open spec fn captured(text: Seq<char>, pattern: Seq<char>) -> Option<Seq<char>> {
    match regex_group(pattern, text, 1) {
        Some(found) => Some(trimmed(found)),
        None => None,
    }
}

/// What patterns find in an error text.
pub struct TextMatches {
    pub code: Option<String>,
    pub cli_code: Option<String>,
    pub message: Option<String>,
    pub operation: Option<String>,
    pub request_id: Option<String>,
    pub authorization_id: Option<String>,
    pub encoded_message: Option<String>,
}

pub struct TextMatchesView {
    pub code: Option<Seq<char>>,
    pub cli_code: Option<Seq<char>>,
    pub message: Option<Seq<char>>,
    pub operation: Option<Seq<char>>,
    pub request_id: Option<Seq<char>>,
    pub authorization_id: Option<Seq<char>>,
    pub encoded_message: Option<Seq<char>>,
}

impl View for TextMatches {
    type V = TextMatchesView;

    open spec fn view(&self) -> TextMatchesView {
        TextMatchesView {
            code: opt_text(self.code),
            cli_code: opt_text(self.cli_code),
            message: opt_text(self.message),
            operation: opt_text(self.operation),
            request_id: opt_text(self.request_id),
            authorization_id: opt_text(self.authorization_id),
            encoded_message: opt_text(self.encoded_message),
        }
    }
}

/// What patterns find in the message of an error, and the message in lower case.
pub struct MessageMatches {
    pub lower: String,
    pub action: Option<String>,
    pub resource: Option<String>,
    pub principal_arn: Option<String>,
    pub policy: Option<String>,
}

pub struct MessageMatchesView {
    pub lower: Seq<char>,
    pub action: Option<Seq<char>>,
    pub resource: Option<Seq<char>>,
    pub principal_arn: Option<Seq<char>>,
    pub policy: Option<Seq<char>>,
}

impl View for MessageMatches {
    type V = MessageMatchesView;

    open spec fn view(&self) -> MessageMatchesView {
        MessageMatchesView {
            lower: self.lower@,
            action: opt_text(self.action),
            resource: opt_text(self.resource),
            principal_arn: opt_text(self.principal_arn),
            policy: opt_text(self.policy),
        }
    }
}

/// What the patterns find in an error text.
pub open spec fn text_matches(text: Seq<char>) -> TextMatchesView {
    TextMatchesView {
        code: captured(text, CODE_PATTERN@),
        cli_code: captured(text, CLI_CODE_PATTERN@),
        message: captured(text, MESSAGE_PATTERN@),
        operation: captured(text, OPERATION_PATTERN@),
        request_id: captured(text, REQUEST_ID_PATTERN@),
        authorization_id: captured(text, AUTHORIZATION_ID_PATTERN@),
        encoded_message: captured(text, ENCODED_MESSAGE_PATTERN@),
    }
}

/// What the patterns find in the message of an error.
pub open spec fn message_matches(message: Seq<char>) -> MessageMatchesView {
    MessageMatchesView {
        lower: lower_case(message),
        action: captured(message, ACTION_PATTERN@),
        resource: captured(message, RESOURCE_PATTERN@),
        principal_arn: captured(message, PRINCIPAL_PATTERN@),
        policy: regex_group(POLICY_PATTERN@, message, 0),
    }
}

/// The first of two values that is there.
pub open spec fn either(first: Option<Seq<char>>, second: Option<Seq<char>>) -> Option<Seq<char>> {
    if first is Some {
        first
    } else {
        second
    }
}

/// What ends a sentence, or closes what was opened around a word.
pub open spec fn is_sentence_punctuation(c: char) -> bool {
    c == '.' || c == ')' || c == ']' || c == '"' || c == '\''
}

/// A word without the punctuation that it ends with.
pub open spec fn without_punctuation(word: Seq<char>) -> Seq<char>
    decreases word.len(),
{
    if word.len() > 0 && is_sentence_punctuation(word.last()) {
        without_punctuation(word.drop_last())
    } else {
        word
    }
}

/// An optional word without the punctuation that it ends with.
pub open spec fn option_without_punctuation(word: Option<Seq<char>>) -> Option<Seq<char>> {
    match word {
        Some(w) => Some(without_punctuation(w)),
        None => None,
    }
}

/// The names under which a JSON error gives its parts.
pub open spec fn code_names() -> Seq<Seq<char>> {
    seq!["Code"@, "code"@, "ErrorCode"@, "__type"@]
}

pub open spec fn message_names() -> Seq<Seq<char>> {
    seq!["Message"@, "message"@]
}

pub open spec fn operation_names() -> Seq<Seq<char>> {
    seq!["Operation"@, "operation"@]
}

pub open spec fn request_id_names() -> Seq<Seq<char>> {
    seq!["RequestId"@, "requestId"@, "RequestID"@]
}

pub open spec fn authorization_id_names() -> Seq<Seq<char>> {
    seq!["AuthorizationId"@, "authorizationId"@]
}

pub open spec fn encoded_message_names() -> Seq<Seq<char>> {
    seq!["EncodedAuthorizationMessage"@, "encodedAuthorizationMessage"@]
}

/// The error code that a text without a marked one still gives away.
pub open spec fn known_code(text: Seq<char>) -> Option<Seq<char>> {
    if occurs_in(text, "NoCredentialsError"@) {
        Some("NoCredentialsError"@)
    } else if occurs_in(text, "NoRegion"@) {
        Some("NoRegion"@)
    } else if occurs_in(text, "ProfileNotFound"@) {
        Some("ProfileNotFound"@)
    } else if occurs_in(text, "EndpointConnectionError"@) {
        Some("EndpointConnectionError"@)
    } else if occurs_in(text, "ConnectTimeoutError"@) {
        Some("ConnectTimeoutError"@)
    } else if occurs_in(text, "ReadTimeoutError"@) {
        Some("ReadTimeoutError"@)
    } else if occurs_in(text, "ParameterValidationError"@) {
        Some("ParameterValidationError"@)
    } else if occurs_in(text, "Unable to locate credentials"@) {
        Some("NoCredentialsError"@)
    } else {
        None
    }
}

/// The code of an error: what the JSON document says, without the namespace in
/// front of a `#`; else what the text marks as the code; else a code that the
/// text gives away.
pub open spec fn code_of(text: Seq<char>, json: Option<Json>, found: TextMatchesView) -> Seq<char> {
    let given = match text_under(json, code_names()) {
        Some(code) => Some(after_last(code, '#')),
        None => None,
    };
    match either(given, either(found.code, either(found.cli_code, known_code(text)))) {
        Some(code) => code,
        None => "UnknownError"@,
    }
}

/// The message of an error; all of the text where none is marked.
pub open spec fn message_of(text: Seq<char>, json: Option<Json>, found: TextMatchesView) -> Seq<
    char,
> {
    match either(text_under(json, message_names()), found.message) {
        Some(message) => message,
        None => text,
    }
}

/// Codes of requests whose sender could not be established.
pub open spec fn is_authentication_code(code: Seq<char>) -> bool {
    ||| code == "ExpiredToken"@
    ||| code == "ExpiredTokenException"@
    ||| code == "InvalidClientTokenId"@
    ||| code == "UnrecognizedClientException"@
    ||| code == "NoCredentialsError"@
    ||| code == "NoCredentialsFound"@
    ||| code == "AuthFailure"@
    ||| code == "InvalidSignatureException"@
    ||| code == "SignatureDoesNotMatch"@
    ||| code == "RequestExpired"@
}

/// Codes of requests that were denied.
pub open spec fn is_authorization_code(code: Seq<char>) -> bool {
    ||| code == "AccessDenied"@
    ||| code == "AccessDeniedException"@
    ||| code == "UnauthorizedOperation"@
    ||| code == "AuthorizationError"@
    ||| code == "NotAuthorized"@
    ||| code == "NotAuthorizedException"@
}

/// Codes of a CLI that is not set up for the request.
pub open spec fn is_configuration_code(code: Seq<char>) -> bool {
    ||| code == "NoRegion"@
    ||| code == "ProfileNotFound"@
    ||| code == "InvalidConfigError"@
    ||| code == "ParamValidation"@
    ||| code == "ParameterValidationError"@
}

/// Codes of requests that did not reach AWS.
pub open spec fn is_network_code(code: Seq<char>) -> bool {
    ||| code == "EndpointConnectionError"@
    ||| code == "ConnectTimeoutError"@
    ||| code == "ReadTimeoutError"@
    ||| code == "ConnectionClosedError"@
    ||| code == "SSLValidationError"@
}

/// Codes of requests for what is not there.
pub open spec fn is_not_found_code(code: Seq<char>) -> bool {
    ||| code == "NoSuchBucket"@
    ||| code == "NoSuchKey"@
    ||| code == "ResourceNotFoundException"@
    ||| code == "NotFoundException"@
    ||| code == "NoSuchEntity"@
}

/// The kind of a failure with that code and message; `lower` is the message in
/// lower case. What is said of credentials goes before all else.
pub open spec fn kind_of(code: Seq<char>, message: Seq<char>, lower: Seq<char>) -> FailureKind {
    let name = after_last(code, '#');
    if is_authentication_code(name) || occurs_in(lower, "unable to locate credentials"@) {
        FailureKind::Authentication
    } else if is_authorization_code(name) {
        FailureKind::Authorization
    } else if is_configuration_code(name) || occurs_in(message, "You must specify a region"@) {
        FailureKind::Configuration
    } else if is_network_code(name) || occurs_in(lower, "could not connect to the endpoint"@) {
        FailureKind::Network
    } else if is_not_found_code(name) {
        FailureKind::ResourceNotFound
    } else {
        FailureKind::Other
    }
}

/// The cause of a denial that a message in lower case states.
pub open spec fn cause_in(lower: Seq<char>) -> Option<DenyCause> {
    if occurs_in(lower, "permissions boundary"@) {
        Some(DenyCause::PermissionsBoundary)
    } else if occurs_in(lower, "service control policy"@) {
        Some(DenyCause::ServiceControlPolicy)
    } else if occurs_in(lower, "resource control policy"@) {
        Some(DenyCause::ResourceControlPolicy)
    } else if occurs_in(lower, "vpc endpoint policy"@) {
        Some(DenyCause::VpcEndpointPolicy)
    } else if occurs_in(lower, "session policy"@) {
        Some(DenyCause::SessionPolicy)
    } else if occurs_in(lower, "role trust policy"@) || occurs_in(lower, "trust policy"@) {
        Some(DenyCause::RoleTrustPolicy)
    } else if occurs_in(lower, "key policy"@) && occurs_in(lower, "kms"@) {
        Some(DenyCause::KmsKeyPolicy)
    } else if occurs_in(lower, "resource-based policy"@) || occurs_in(lower, "resource policy"@) {
        Some(DenyCause::ResourcePolicy)
    } else if occurs_in(lower, "explicit deny in an identity-based policy"@) {
        Some(DenyCause::IdentityPolicyExplicitDeny)
    } else if occurs_in(lower, "no identity-based policy allows"@) {
        Some(DenyCause::MissingIdentityAllow)
    } else if occurs_in(lower, "condition"@) {
        Some(DenyCause::Condition)
    } else {
        None
    }
}

/// What an error says, given what was found in it.
pub open spec fn evidence_from(
    raw: Seq<u8>,
    text: Seq<char>,
    json: Option<Json>,
    found: TextMatchesView,
    inside: MessageMatchesView,
) -> EvidenceView {
    let code = code_of(text, json, found);
    let message = message_of(text, json, found);
    EvidenceView {
        service: match inside.action {
            Some(action) => match split_first(action, ':') {
                Some((service, _)) => Some(service),
                None => None,
            },
            None => None,
        },
        operation: either(found.operation, text_under(json, operation_names())),
        action: inside.action,
        error_code: code,
        message,
        request_id: either(text_under(json, request_id_names()), found.request_id),
        authorization_id: either(
            text_under(json, authorization_id_names()),
            found.authorization_id,
        ),
        encoded_authorization_message: either(
            text_under(json, encoded_message_names()),
            found.encoded_message,
        ),
        resource: option_without_punctuation(inside.resource),
        principal_arn: option_without_punctuation(inside.principal_arn),
        reported_cause: cause_in(inside.lower),
        reported_policy: option_without_punctuation(inside.policy),
        failure_kind: kind_of(code, message, inside.lower),
        raw_error: raw,
    }
}

/// What the AWS CLI says in what it wrote to its error stream; nothing where it
/// wrote nothing but white space.
pub open spec fn evidence_of(raw: Seq<u8>) -> Option<EvidenceView> {
    let text = trimmed(utf8_lossy(raw));
    if text.len() == 0 {
        None
    } else {
        let json = json_value(encode_utf8(text));
        let found = text_matches(text);
        let message = message_of(text, json, found);
        Some(evidence_from(raw, text, json, found, message_matches(message)))
    }
}

/// What the first group of a pattern covers in a text.
fn capture(text: &str, pattern: &str) -> (r: Option<String>)
    ensures
        opt_text(r) == captured(text@, pattern@),
{
    match find_group(pattern, text, 1) {
        Some(found) => Some(trim(found.as_str())),
        None => None,
    }
}

fn first_of(first: Option<String>, second: Option<String>) -> (r: Option<String>)
    ensures
        opt_text(r) == either(opt_text(first), opt_text(second)),
{
    match first {
        Some(value) => Some(value),
        None => second,
    }
}

/// A word without the punctuation that it ends with.
pub fn trim_sentence_punctuation(value: &str) -> (r: String)
    ensures
        r@ == without_punctuation(value@),
{
    let chars = chars_of(value);
    let mut end: usize = chars.len();
    assert(chars@.take(end as int) =~= chars@);
    while end > 0 && (chars[end - 1] == '.' || chars[end - 1] == ')' || chars[end - 1] == ']'
        || chars[end - 1] == '"' || chars[end - 1] == '\'')
        invariant
            chars@ == value@,
            end <= chars@.len(),
            without_punctuation(value@) == without_punctuation(chars@.take(end as int)),
        decreases end,
    {
        assert(chars@.take(end as int).drop_last() =~= chars@.take(end - 1));
        end -= 1;
    }
    part_of(value, 0, end)
}

fn trim_option(value: &Option<String>) -> (r: Option<String>)
    ensures
        opt_text(r) == option_without_punctuation(opt_text(*value)),
{
    match value {
        Some(word) => Some(trim_sentence_punctuation(word.as_str())),
        None => None,
    }
}

/// An error type without the namespace in front of it.
pub fn clean_error_type(value: &str) -> (r: String)
    ensures
        r@ == after_last(value@, '#'),
{
    behind_last(value, '#')
}

/// The error code that a text without a marked one still gives away.
pub fn known_text_error_code(text: &str) -> (r: Option<String>)
    ensures
        opt_text(r) == known_code(text@),
{
    if contains(text, "NoCredentialsError") {
        Some("NoCredentialsError".to_owned())
    } else if contains(text, "NoRegion") {
        Some("NoRegion".to_owned())
    } else if contains(text, "ProfileNotFound") {
        Some("ProfileNotFound".to_owned())
    } else if contains(text, "EndpointConnectionError") {
        Some("EndpointConnectionError".to_owned())
    } else if contains(text, "ConnectTimeoutError") {
        Some("ConnectTimeoutError".to_owned())
    } else if contains(text, "ReadTimeoutError") {
        Some("ReadTimeoutError".to_owned())
    } else if contains(text, "ParameterValidationError") {
        Some("ParameterValidationError".to_owned())
    } else if contains(text, "Unable to locate credentials") {
        Some("NoCredentialsError".to_owned())
    } else {
        None
    }
}

/// The kind of a failure with that code and message.
pub fn classify_failure(code: &str, message: &str) -> (r: FailureKind)
    ensures
        r == kind_of(code@, message@, lower_case(message@)),
{
    let lower = to_lower(message);
    failure_kind_of(code, message, lower.as_str())
}

/// The kind of a failure with that code and message; `lower` is the message in
/// lower case.
pub fn failure_kind_of(code: &str, message: &str, lower: &str) -> (r: FailureKind)
    ensures
        r == kind_of(code@, message@, lower@),
        ({
            let name = after_last(code@, '#');
            let lost = occurs_in(lower@, "unable to locate credentials"@);
            let regionless = occurs_in(message@, "You must specify a region"@);
            let unconnected = occurs_in(lower@, "could not connect to the endpoint"@);
            let unknown_sender = name == "ExpiredToken"@
                || name == "ExpiredTokenException"@
                || name == "InvalidClientTokenId"@
                || name == "UnrecognizedClientException"@
                || name == "NoCredentialsError"@
                || name == "NoCredentialsFound"@
                || name == "AuthFailure"@
                || name == "InvalidSignatureException"@
                || name == "SignatureDoesNotMatch"@
                || name == "RequestExpired"@;
            let denied = name == "AccessDenied"@
                || name == "AccessDeniedException"@
                || name == "UnauthorizedOperation"@
                || name == "AuthorizationError"@
                || name == "NotAuthorized"@
                || name == "NotAuthorizedException"@;
            let unset = name == "NoRegion"@
                || name == "ProfileNotFound"@
                || name == "InvalidConfigError"@
                || name == "ParamValidation"@
                || name == "ParameterValidationError"@;
            let unreached = name == "EndpointConnectionError"@
                || name == "ConnectTimeoutError"@
                || name == "ReadTimeoutError"@
                || name == "ConnectionClosedError"@
                || name == "SSLValidationError"@;
            let missing = name == "NoSuchBucket"@
                || name == "NoSuchKey"@
                || name == "ResourceNotFoundException"@
                || name == "NotFoundException"@
                || name == "NoSuchEntity"@;
            &&& r == FailureKind::Authentication <==> unknown_sender || lost
            &&& r == FailureKind::Authorization <==> denied && !lost
            &&& r == FailureKind::Configuration <==> !unknown_sender && !lost && !denied && (unset
                || regionless)
            &&& r == FailureKind::Network <==> !unknown_sender && !lost && !denied && !unset
                && !regionless && (unreached || unconnected)
            &&& r == FailureKind::ResourceNotFound <==> missing && !lost && !regionless
                && !unconnected
        }),
{
    proof {
        law_codes_tell_the_kind(code@, message@, lower@);
    }
    let name = behind_last(code, '#');
    let n = name.as_str();
    if same_text(n, "ExpiredToken") || same_text(n, "ExpiredTokenException") || same_text(
        n,
        "InvalidClientTokenId",
    ) || same_text(n, "UnrecognizedClientException") || same_text(n, "NoCredentialsError")
        || same_text(n, "NoCredentialsFound") || same_text(n, "AuthFailure") || same_text(
        n,
        "InvalidSignatureException",
    ) || same_text(n, "SignatureDoesNotMatch") || same_text(n, "RequestExpired") || contains(
        lower,
        "unable to locate credentials",
    ) {
        FailureKind::Authentication
    } else if same_text(n, "AccessDenied") || same_text(n, "AccessDeniedException") || same_text(
        n,
        "UnauthorizedOperation",
    ) || same_text(n, "AuthorizationError") || same_text(n, "NotAuthorized") || same_text(
        n,
        "NotAuthorizedException",
    ) {
        FailureKind::Authorization
    } else if same_text(n, "NoRegion") || same_text(n, "ProfileNotFound") || same_text(
        n,
        "InvalidConfigError",
    ) || same_text(n, "ParamValidation") || same_text(n, "ParameterValidationError") || contains(
        message,
        "You must specify a region",
    ) {
        FailureKind::Configuration
    } else if same_text(n, "EndpointConnectionError") || same_text(n, "ConnectTimeoutError")
        || same_text(n, "ReadTimeoutError") || same_text(n, "ConnectionClosedError") || same_text(
        n,
        "SSLValidationError",
    ) || contains(lower, "could not connect to the endpoint") {
        FailureKind::Network
    } else if same_text(n, "NoSuchBucket") || same_text(n, "NoSuchKey") || same_text(
        n,
        "ResourceNotFoundException",
    ) || same_text(n, "NotFoundException") || same_text(n, "NoSuchEntity") {
        FailureKind::ResourceNotFound
    } else {
        FailureKind::Other
    }
}

/// The cause of a denial that a message in lower case states.
pub fn reported_cause_in(lower: &str) -> (r: Option<DenyCause>)
    ensures
        r == cause_in(lower@),
{
    if contains(lower, "permissions boundary") {
        Some(DenyCause::PermissionsBoundary)
    } else if contains(lower, "service control policy") {
        Some(DenyCause::ServiceControlPolicy)
    } else if contains(lower, "resource control policy") {
        Some(DenyCause::ResourceControlPolicy)
    } else if contains(lower, "vpc endpoint policy") {
        Some(DenyCause::VpcEndpointPolicy)
    } else if contains(lower, "session policy") {
        Some(DenyCause::SessionPolicy)
    } else if contains(lower, "role trust policy") || contains(lower, "trust policy") {
        Some(DenyCause::RoleTrustPolicy)
    } else if contains(lower, "key policy") && contains(lower, "kms") {
        Some(DenyCause::KmsKeyPolicy)
    } else if contains(lower, "resource-based policy") || contains(lower, "resource policy") {
        Some(DenyCause::ResourcePolicy)
    } else if contains(lower, "explicit deny in an identity-based policy") {
        Some(DenyCause::IdentityPolicyExplicitDeny)
    } else if contains(lower, "no identity-based policy allows") {
        Some(DenyCause::MissingIdentityAllow)
    } else if contains(lower, "condition") {
        Some(DenyCause::Condition)
    } else {
        None
    }
}

/// The cause of a denial that a message states, and the policy that it names.
pub fn parse_reported_cause(message: &str) -> (r: (Option<DenyCause>, Option<String>))
    ensures
        r.0 == cause_in(lower_case(message@)),
        opt_text(r.1) == option_without_punctuation(regex_group(POLICY_PATTERN@, message@, 0)),
{
    let lower = to_lower(message);
    let policy = find_group(POLICY_PATTERN, message, 0);
    (reported_cause_in(lower.as_str()), trim_option(&policy))
}

/// What the patterns find in an error text.
fn match_text(text: &str) -> (r: TextMatches)
    ensures
        r@ == text_matches(text@),
{
    TextMatches {
        code: capture(text, CODE_PATTERN),
        cli_code: capture(text, CLI_CODE_PATTERN),
        message: capture(text, MESSAGE_PATTERN),
        operation: capture(text, OPERATION_PATTERN),
        request_id: capture(text, REQUEST_ID_PATTERN),
        authorization_id: capture(text, AUTHORIZATION_ID_PATTERN),
        encoded_message: capture(text, ENCODED_MESSAGE_PATTERN),
    }
}

/// What the patterns find in the message of an error.
fn match_message(message: &str) -> (r: MessageMatches)
    ensures
        r@ == message_matches(message@),
{
    MessageMatches {
        lower: to_lower(message),
        action: capture(message, ACTION_PATTERN),
        resource: capture(message, RESOURCE_PATTERN),
        principal_arn: capture(message, PRINCIPAL_PATTERN),
        policy: find_group(POLICY_PATTERN, message, 0),
    }
}

/// The code of an error.
pub fn error_code(text: &str, json: &Option<Json>, found: &TextMatches) -> (r: String)
    ensures
        r@ == code_of(text@, *json, found@),
{
    let names = ["Code", "code", "ErrorCode", "__type"];
    assert(strs(names@) =~= code_names());
    let given = match document_string(json, &names) {
        Some(code) => Some(clean_error_type(code.as_str())),
        None => None,
    };
    let marked = first_of(
        copy_option(&found.code),
        first_of(copy_option(&found.cli_code), known_text_error_code(text)),
    );
    match first_of(given, marked) {
        Some(code) => code,
        None => "UnknownError".to_owned(),
    }
}

/// The message of an error.
pub fn error_message(text: &str, json: &Option<Json>, found: &TextMatches) -> (r: String)
    ensures
        r@ == message_of(text@, *json, found@),
{
    let names = ["Message", "message"];
    assert(strs(names@) =~= message_names());
    match first_of(document_string(json, &names), copy_option(&found.message)) {
        Some(message) => message,
        None => text.to_owned(),
    }
}

/// What an error says, given what was found in it.
pub fn error_evidence(
    raw: &[u8],
    text: &str,
    json: &Option<Json>,
    found: &TextMatches,
    inside: &MessageMatches,
) -> (r: AwsErrorEvidence)
    ensures
        r@ == evidence_from(raw@, text@, *json, found@, inside@),
{
    let code = error_code(text, json, found);
    let message = error_message(text, json, found);
    let operation_keys = ["Operation", "operation"];
    let request_id_keys = ["RequestId", "requestId", "RequestID"];
    let authorization_id_keys = ["AuthorizationId", "authorizationId"];
    let encoded_message_keys = ["EncodedAuthorizationMessage", "encodedAuthorizationMessage"];
    assert(strs(operation_keys@) =~= operation_names());
    assert(strs(request_id_keys@) =~= request_id_names());
    assert(strs(authorization_id_keys@) =~= authorization_id_names());
    assert(strs(encoded_message_keys@) =~= encoded_message_names());
    let service = match &inside.action {
        Some(action) => match split_once(action.as_str(), ':') {
            Some((service, _)) => Some(service),
            None => None,
        },
        None => None,
    };
    let failure_kind = failure_kind_of(code.as_str(), message.as_str(), inside.lower.as_str());
    AwsErrorEvidence {
        service,
        operation: first_of(copy_option(&found.operation), document_string(json, &operation_keys)),
        action: copy_option(&inside.action),
        error_code: code,
        message,
        request_id: first_of(
            document_string(json, &request_id_keys),
            copy_option(&found.request_id),
        ),
        authorization_id: first_of(
            document_string(json, &authorization_id_keys),
            copy_option(&found.authorization_id),
        ),
        encoded_authorization_message: first_of(
            document_string(json, &encoded_message_keys),
            copy_option(&found.encoded_message),
        ),
        resource: trim_option(&inside.resource),
        principal_arn: trim_option(&inside.principal_arn),
        reported_cause: reported_cause_in(inside.lower.as_str()),
        reported_policy: trim_option(&inside.policy),
        failure_kind,
        raw_error: slice_to_vec(raw),
    }
}

/// What the AWS CLI says in what it wrote to its error stream.
pub fn parse_aws_error(raw: &[u8]) -> (r: Option<AwsErrorEvidence>)
    ensures
        opt_view(r) == evidence_of(raw@),
{
    let all = decode_lossy(raw);
    let text = trim(all.as_str());
    if text.as_str().is_empty() {
        return None;
    }
    let json = parse_json(text.as_str().as_bytes());
    let found = match_text(text.as_str());
    let message = error_message(text.as_str(), &json, &found);
    let inside = match_message(message.as_str());
    Some(error_evidence(raw, text.as_str(), &json, &found, &inside))
}

/// The message says of a request why it failed, whatever its code.
pub open spec fn tells_kind(message: Seq<char>, lower: Seq<char>) -> bool {
    ||| occurs_in(lower, "unable to locate credentials"@)
    ||| occurs_in(message, "You must specify a region"@)
    ||| occurs_in(lower, "could not connect to the endpoint"@)
}

proof fn lemma_codes_are_apart(code: Seq<char>)
    ensures
        is_authentication_code(code) ==> !is_authorization_code(code),
        is_configuration_code(code) ==> !is_authentication_code(code) && !is_authorization_code(
            code,
        ),
        is_network_code(code) ==> !is_authentication_code(code) && !is_authorization_code(code)
            && !is_configuration_code(code),
        is_not_found_code(code) ==> !is_authentication_code(code) && !is_authorization_code(code)
            && !is_configuration_code(code) && !is_network_code(code),
{
    reveal_strlit("ExpiredToken");
    reveal_strlit("ExpiredTokenException");
    reveal_strlit("InvalidClientTokenId");
    reveal_strlit("UnrecognizedClientException");
    reveal_strlit("NoCredentialsError");
    reveal_strlit("NoCredentialsFound");
    reveal_strlit("AuthFailure");
    reveal_strlit("InvalidSignatureException");
    reveal_strlit("SignatureDoesNotMatch");
    reveal_strlit("RequestExpired");
    reveal_strlit("AccessDenied");
    reveal_strlit("AccessDeniedException");
    reveal_strlit("UnauthorizedOperation");
    reveal_strlit("AuthorizationError");
    reveal_strlit("NotAuthorized");
    reveal_strlit("NotAuthorizedException");
    reveal_strlit("NoRegion");
    reveal_strlit("ProfileNotFound");
    reveal_strlit("InvalidConfigError");
    reveal_strlit("ParamValidation");
    reveal_strlit("ParameterValidationError");
    reveal_strlit("EndpointConnectionError");
    reveal_strlit("ConnectTimeoutError");
    reveal_strlit("ReadTimeoutError");
    reveal_strlit("ConnectionClosedError");
    reveal_strlit("SSLValidationError");
    reveal_strlit("NoSuchBucket");
    reveal_strlit("NoSuchKey");
    reveal_strlit("ResourceNotFoundException");
    reveal_strlit("NotFoundException");
    reveal_strlit("NoSuchEntity");
    // Its length and its first letter tell each code from those of the other kinds.
    let (length, first) = (code.len(), code[0]);
    assert(is_authentication_code(code) ==> (length, first) == (12nat, 'E') || (length, first) == (
        21nat,
        'E',
    ) || length == 20 || length == 27 || (length, first) == (18nat, 'N') || length == 11 || (
    length, first) == (25nat, 'I') || (length, first) == (21nat, 'S') || length == 14);
    assert(is_authorization_code(code) ==> first == 'A' && (length == 12 || length == 18 || length
        == 21) || (length, first) == (21nat, 'U') || length == 13 || length == 22);
}

/// Not every failure is a denial: expired or missing credentials, a missing
/// configuration, a network that fails and a resource that is not there are told
/// apart from it and from each other. Only a code of a denial makes one, and not
/// where the credentials could not be found.
pub proof fn law_failures_are_told_apart(code: Seq<char>, message: Seq<char>, lower: Seq<char>)
    ensures
        ({
            let name = after_last(code, '#');
            let kind = kind_of(code, message, lower);
            let lost = occurs_in(lower, "unable to locate credentials"@);
            &&& kind == FailureKind::Authentication <==> is_authentication_code(name) || lost
            &&& kind == FailureKind::Authorization <==> is_authorization_code(name) && !lost
            &&& is_configuration_code(name) && !lost ==> kind == FailureKind::Configuration
            &&& is_network_code(name) && !tells_kind(message, lower) ==> kind
                == FailureKind::Network
            &&& is_not_found_code(name) && !tells_kind(message, lower) ==> kind
                == FailureKind::ResourceNotFound
        }),
{
    lemma_codes_are_apart(after_last(code, '#'));
}

/// The code of an error tells the kind of the failure, by its name: a request whose
/// sender could not be established, one that was denied, a CLI that is not set up, a
/// request that did not reach AWS, one for what is not there, or any other failure. What
/// the message says of credentials goes before every code, and what it says of a
/// region or an endpoint only where the code says nothing stronger.
pub proof fn law_codes_tell_the_kind(code: Seq<char>, message: Seq<char>, lower: Seq<char>)
    ensures
        ({
            let name = after_last(code, '#');
            let kind = kind_of(code, message, lower);
            let lost = occurs_in(lower, "unable to locate credentials"@);
            let regionless = occurs_in(message, "You must specify a region"@);
            let unconnected = occurs_in(lower, "could not connect to the endpoint"@);
            let unknown_sender = name == "ExpiredToken"@
                || name == "ExpiredTokenException"@
                || name == "InvalidClientTokenId"@
                || name == "UnrecognizedClientException"@
                || name == "NoCredentialsError"@
                || name == "NoCredentialsFound"@
                || name == "AuthFailure"@
                || name == "InvalidSignatureException"@
                || name == "SignatureDoesNotMatch"@
                || name == "RequestExpired"@;
            let denied = name == "AccessDenied"@
                || name == "AccessDeniedException"@
                || name == "UnauthorizedOperation"@
                || name == "AuthorizationError"@
                || name == "NotAuthorized"@
                || name == "NotAuthorizedException"@;
            let unset = name == "NoRegion"@
                || name == "ProfileNotFound"@
                || name == "InvalidConfigError"@
                || name == "ParamValidation"@
                || name == "ParameterValidationError"@;
            let unreached = name == "EndpointConnectionError"@
                || name == "ConnectTimeoutError"@
                || name == "ReadTimeoutError"@
                || name == "ConnectionClosedError"@
                || name == "SSLValidationError"@;
            let missing = name == "NoSuchBucket"@
                || name == "NoSuchKey"@
                || name == "ResourceNotFoundException"@
                || name == "NotFoundException"@
                || name == "NoSuchEntity"@;
            &&& kind == FailureKind::Authentication <==> unknown_sender || lost
            &&& kind == FailureKind::Authorization <==> denied && !lost
            &&& kind == FailureKind::Configuration <==> !unknown_sender && !lost && !denied && (unset
                || regionless)
            &&& kind == FailureKind::Network <==> !unknown_sender && !lost && !denied && !unset
                && !regionless && (unreached || unconnected)
            &&& kind == FailureKind::ResourceNotFound <==> missing && !lost && !regionless
                && !unconnected
        }),
{
    lemma_codes_are_apart(after_last(code, '#'));
}

/// A namespace in front of a code does not count: what stands behind the last `#` is
/// the name of the error.
pub proof fn law_namespaces_do_not_count(
    namespace: Seq<char>,
    name: Seq<char>,
    message: Seq<char>,
    lower: Seq<char>,
)
    requires
        !name.contains('#'),
    ensures
        after_last(namespace + seq!['#'] + name, '#') == name,
        after_last(name, '#') == name,
        kind_of(namespace + seq!['#'] + name, message, lower) == kind_of(name, message, lower),
{
    law_text_falls_apart_at_the_last(namespace, '#', name);
    law_text_without_it_stays_whole(name, '#');
}

/// The message tells the layer that denies, by its words. Of several layers the one
/// of the widest reach is told: a boundary, then the organization, then the endpoint,
/// the session, the trust of a role, the key and the resource, and then the identity
/// itself; a condition only where no layer is named.
pub proof fn law_messages_tell_the_cause(lower: Seq<char>)
    ensures
        ({
            let cause = cause_in(lower);
            let boundary = occurs_in(lower, "permissions boundary"@);
            let service = occurs_in(lower, "service control policy"@);
            let control = occurs_in(lower, "resource control policy"@);
            let endpoint = occurs_in(lower, "vpc endpoint policy"@);
            let session = occurs_in(lower, "session policy"@);
            let trust = occurs_in(lower, "role trust policy"@) || occurs_in(
                lower,
                "trust policy"@,
            );
            let key = occurs_in(lower, "key policy"@) && occurs_in(lower, "kms"@);
            let resource = occurs_in(lower, "resource-based policy"@) || occurs_in(
                lower,
                "resource policy"@,
            );
            let explicit = occurs_in(lower, "explicit deny in an identity-based policy"@);
            let absent = occurs_in(lower, "no identity-based policy allows"@);
            let above = boundary || service || control;
            let around = above || endpoint || session || trust || key || resource;
            &&& cause == Some(DenyCause::PermissionsBoundary) <==> boundary
            &&& cause == Some(DenyCause::ServiceControlPolicy) <==> service && !boundary
            &&& cause == Some(DenyCause::ResourceControlPolicy) <==> control && !service
                && !boundary
            &&& cause == Some(DenyCause::VpcEndpointPolicy) <==> endpoint && !above
            &&& cause == Some(DenyCause::SessionPolicy) <==> session && !endpoint && !above
            &&& cause == Some(DenyCause::RoleTrustPolicy) <==> trust && !session && !endpoint
                && !above
            &&& cause == Some(DenyCause::KmsKeyPolicy) <==> key && !trust && !session && !endpoint
                && !above
            &&& cause == Some(DenyCause::ResourcePolicy) <==> resource && !key && !trust
                && !session && !endpoint && !above
            &&& cause == Some(DenyCause::IdentityPolicyExplicitDeny) <==> explicit && !around
            &&& cause == Some(DenyCause::MissingIdentityAllow) <==> absent && !explicit && !around
            &&& cause == Some(DenyCause::Condition) <==> occurs_in(lower, "condition"@) && !absent
                && !explicit && !around
            &&& cause != Some(DenyCause::Unknown)
        }),
{
}

/// A text that marks no code gives one away only by its name, and that code stands in
/// the text, but for missing credentials, which it may tell in words.
pub proof fn law_known_codes_stand_in_the_text(text: Seq<char>)
    ensures
        known_code(text) matches Some(code) ==> occurs_in(text, code) || (code
            == "NoCredentialsError"@ && occurs_in(text, "Unable to locate credentials"@)),
        occurs_in(text, "NoCredentialsError"@) ==> known_code(text) == Some("NoCredentialsError"@),
        occurs_in(text, "NoRegion"@) ==> known_code(text) == Some("NoCredentialsError"@)
            || known_code(text) == Some("NoRegion"@),
        known_code(text) is None <==> !occurs_in(text, "NoCredentialsError"@) && !occurs_in(
            text,
            "NoRegion"@,
        ) && !occurs_in(text, "ProfileNotFound"@) && !occurs_in(text, "EndpointConnectionError"@)
            && !occurs_in(text, "ConnectTimeoutError"@) && !occurs_in(text, "ReadTimeoutError"@)
            && !occurs_in(text, "ParameterValidationError"@) && !occurs_in(
            text,
            "Unable to locate credentials"@,
        ),
        known_code(text) == Some("ProfileNotFound"@) <== occurs_in(text, "ProfileNotFound"@)
            && !occurs_in(text, "NoCredentialsError"@) && !occurs_in(text, "NoRegion"@),
        forall|code: Seq<char>|
            known_code(text) == Some(code) ==> code == "NoCredentialsError"@ || code == "NoRegion"@
                || code == "ProfileNotFound"@ || code == "EndpointConnectionError"@ || code
                == "ConnectTimeoutError"@ || code == "ReadTimeoutError"@ || code
                == "ParameterValidationError"@,
{
}

/// What a JSON error says goes before what patterns find in its text, for the code and
/// the message; a code that the text gives away comes after both, and where nothing
/// tells it the code is `UnknownError` and the message all of the text.
pub proof fn law_documents_go_before_patterns(
    text: Seq<char>,
    json: Option<Json>,
    found: TextMatchesView,
)
    ensures
        match json {
            Some(document) => {
                &&& find_text(
                    document,
                    seq!["Code"@, "code"@, "ErrorCode"@, "__type"@],
                ) matches Some(given) ==> code_of(text, json, found) == after_last(given, '#')
                &&& find_text(document, seq!["Message"@, "message"@]) matches Some(given)
                    ==> message_of(text, json, found) == given
                &&& find_text(document, seq!["Code"@, "code"@, "ErrorCode"@, "__type"@]) is None
                    ==> code_of(text, json, found) == code_of(text, None, found)
                &&& find_text(document, seq!["Message"@, "message"@]) is None ==> message_of(
                    text,
                    json,
                    found,
                ) == message_of(text, None, found)
            },
            None => {
                &&& found.code matches Some(code) ==> code_of(text, json, found) == code
                &&& found.code is None ==> (found.cli_code matches Some(code) ==> code_of(
                    text,
                    json,
                    found,
                ) == code)
                &&& found.code is None && found.cli_code is None ==> (known_code(
                    text,
                ) matches Some(code) ==> code_of(text, json, found) == code)
                &&& found.code is None && found.cli_code is None && known_code(text) is None
                    ==> code_of(text, json, found) == "UnknownError"@
                &&& found.message matches Some(message) ==> message_of(text, json, found) == message
                &&& found.message is None ==> message_of(text, json, found) == text
            },
        },
{
}

/// What an error says of a request is read from its message, and what identifies the
/// request from the document or the text, whichever says it; the service is what
/// stands in front of the first colon of the action.
pub proof fn law_evidence_is_what_was_found(
    raw: Seq<u8>,
    text: Seq<char>,
    json: Option<Json>,
    found: TextMatchesView,
    inside: MessageMatchesView,
)
    ensures
        ({
            let evidence = evidence_from(raw, text, json, found, inside);
            &&& evidence.raw_error == raw
            &&& evidence.error_code == code_of(text, json, found)
            &&& evidence.message == message_of(text, json, found)
            &&& evidence.action == inside.action
            &&& evidence.service matches Some(service) ==> !service.contains(':') && exists|
                name: Seq<char>,
            |
                evidence.action == Some(#[trigger] (service + seq![':'] + name))
            &&& evidence.service is None ==> (evidence.action matches Some(action)
                ==> !action.contains(':'))
            &&& evidence.reported_cause == cause_in(inside.lower)
            &&& evidence.failure_kind == kind_of(
                evidence.error_code,
                evidence.message,
                inside.lower,
            )
            &&& found.operation is Some ==> evidence.operation == found.operation
            &&& json is None ==> evidence.operation == found.operation && evidence.request_id
                == found.request_id && evidence.authorization_id == found.authorization_id
                && evidence.encoded_authorization_message == found.encoded_message
            &&& json matches Some(document) ==> {
                let operation = find_text(document, seq!["Operation"@, "operation"@]);
                let request = find_text(document, seq!["RequestId"@, "requestId"@, "RequestID"@]);
                let id = find_text(document, seq!["AuthorizationId"@, "authorizationId"@]);
                let encoded = find_text(
                    document,
                    seq!["EncodedAuthorizationMessage"@, "encodedAuthorizationMessage"@],
                );
                &&& found.operation is None ==> evidence.operation == operation
                &&& request is Some ==> evidence.request_id == request
                &&& request is None ==> evidence.request_id == found.request_id
                &&& id is Some ==> evidence.authorization_id == id
                &&& id is None ==> evidence.authorization_id == found.authorization_id
                &&& encoded is Some ==> evidence.encoded_authorization_message == encoded
                &&& encoded is None ==> evidence.encoded_authorization_message
                    == found.encoded_message
            }
            &&& evidence.resource is Some <==> inside.resource is Some
            &&& evidence.principal_arn is Some <==> inside.principal_arn is Some
            &&& evidence.reported_policy is Some <==> inside.policy is Some
            &&& inside.resource matches Some(word) ==> is_bare_part(evidence.resource.unwrap(), word)
            &&& inside.principal_arn matches Some(word) ==> is_bare_part(
                evidence.principal_arn.unwrap(),
                word,
            )
            &&& inside.policy matches Some(word) ==> is_bare_part(
                evidence.reported_policy.unwrap(),
                word,
            )
        }),
{
    let evidence = evidence_from(raw, text, json, found, inside);
    if let Some(action) = inside.action {
        law_text_falls_apart_at_the_first(action, ':');
        if let Some((service, name)) = split_first(action, ':') {
            assert(action == service + seq![':'] + name);
        }
    }
    if let Some(word) = inside.resource {
        lemma_bare_part(word);
    }
    if let Some(word) = inside.principal_arn {
        lemma_bare_part(word);
    }
    if let Some(word) = inside.policy {
        lemma_bare_part(word);
    }
}

/// A word is another one without the full stops, quotes and closing brackets that it
/// ends with: it ends with none, and nothing else was taken off.
pub open spec fn is_bare_part(bare: Seq<char>, word: Seq<char>) -> bool {
    &&& bare.len() <= word.len()
    &&& bare == word.take(bare.len() as int)
    &&& bare.len() > 0 ==> !seq!['.', ')', ']', '"', '\''].contains(bare.last())
    &&& forall|i: int|
        bare.len() <= i < word.len() ==> seq!['.', ')', ']', '"', '\''].contains(#[trigger] word[i])
}

proof fn lemma_bare_part(word: Seq<char>)
    ensures
        is_bare_part(without_punctuation(word), word),
    decreases word.len(),
{
    let marks = seq!['.', ')', ']', '"', '\''];
    assert(marks[0] == '.' && marks[1] == ')' && marks[2] == ']' && marks[3] == '"' && marks[4]
        == '\'');
    assert forall|c: char| marks.contains(c) == is_sentence_punctuation(c) by {
        if is_sentence_punctuation(c) {
            assert(marks[0] == c || marks[1] == c || marks[2] == c || marks[3] == c || marks[4]
                == c);
        }
    }
    let bare = without_punctuation(word);
    if word.len() > 0 && is_sentence_punctuation(word.last()) {
        lemma_bare_part(word.drop_last());
        assert(bare =~= word.take(bare.len() as int));
        assert forall|i: int| bare.len() <= i < word.len() implies marks.contains(
            #[trigger] word[i],
        ) by {
            if i < word.len() - 1 {
                assert(word[i] == word.drop_last()[i]);
            }
        }
    } else {
        assert(word.take(word.len() as int) =~= word);
    }
}

/// What an error stream says is told by its text without white space at the ends, and
/// nothing is told where there is no more to it. The kind of the failure and the cause
/// go by the code and the message that are told.
pub proof fn law_error_streams_are_read(raw: Seq<u8>)
    ensures
        evidence_of(raw) is None <==> trimmed(utf8_lossy(raw)).len() == 0,
        evidence_of(raw) matches Some(evidence) ==> {
            let text = trimmed(utf8_lossy(raw));
            let lower = lower_case(evidence.message);
            &&& evidence.raw_error == raw
            &&& evidence.failure_kind == kind_of(evidence.error_code, evidence.message, lower)
            &&& evidence.reported_cause == cause_in(lower)
            &&& evidence.error_code == code_of(
                text,
                json_value(encode_utf8(text)),
                text_matches(text),
            )
            &&& evidence.message == message_of(
                text,
                json_value(encode_utf8(text)),
                text_matches(text),
            )
            &&& json_value(encode_utf8(text)) is None ==> {
                &&& evidence.request_id == captured(text, REQUEST_ID_PATTERN@)
                &&& evidence.authorization_id == captured(text, AUTHORIZATION_ID_PATTERN@)
                &&& evidence.encoded_authorization_message == captured(
                    text,
                    ENCODED_MESSAGE_PATTERN@,
                )
                &&& evidence.operation == captured(text, OPERATION_PATTERN@)
                &&& regex_group(MESSAGE_PATTERN@, text, 1) is None ==> evidence.message == text
            }
            &&& evidence.action == match regex_group(ACTION_PATTERN@, evidence.message, 1) {
                Some(action) => Some(trimmed(action)),
                None => None,
            }
            &&& evidence.resource is Some <==> regex_group(RESOURCE_PATTERN@, evidence.message, 1)
                is Some
            &&& evidence.principal_arn is Some <==> regex_group(
                PRINCIPAL_PATTERN@,
                evidence.message,
                1,
            ) is Some
            &&& evidence.reported_policy is Some <==> regex_group(
                POLICY_PATTERN@,
                evidence.message,
                0,
            ) is Some
        },
{
}

/// The patterns that are looked for, to the letter.
pub proof fn law_patterns_are_these()
    ensures
        CODE_PATTERN@
            == r"(?i)an error occurred \(([^)]+)\)"@,
        CLI_CODE_PATTERN@
            == r"(?m)^aws: \[ERROR\]: An error occurred \(([^)]+)\)"@,
        MESSAGE_PATTERN@
            == r"(?s)(?:when calling the [A-Za-z0-9]+ operation|an error occurred \([^)]+\)):\s*(.+)"@,
        OPERATION_PATTERN@
            == r"(?i)when calling the ([A-Za-z0-9]+) operation"@,
        REQUEST_ID_PATTERN@
            == r"(?i)request(?:\s+|_)?id\s*[:=]\s*([A-Za-z0-9-]+)"@,
        AUTHORIZATION_ID_PATTERN@
            == r"(?i)authorization\s+id(?:entifier)?\s*:\s*([A-Za-z0-9_+=./:-]+)"@,
        ENCODED_MESSAGE_PATTERN@
            == r"(?i)encoded authorization failure message\s*:\s*([A-Za-z0-9_+=./-]+)"@,
        ACTION_PATTERN@
            == r"(?i)(?:not authorized to perform|not authorized to perform:|perform action)\s*:?[[:space:]]*([a-z0-9-]+:[A-Za-z0-9*]+)"@,
        RESOURCE_PATTERN@
            == r"(?i)(?:on resource(?:s)?|resource)\s*:\s*((?:arn:[^\s,;]+)|\*)"@,
        PRINCIPAL_PATTERN@
            == r"(?i)(?:user|principal)\s*:\s*(arn:aws(?:-[a-z]+)*:(?:iam|sts)::[0-9]{12}:[^\s,]+)"@,
        POLICY_PATTERN@
            == r"arn:aws(?:-[a-z]+)*:(?:iam|organizations)::[^\s,;]+(?:policy|policy/)[^\s,;.]+"@,
{
}

/// What a pattern finds is what its first group covers, without white space at the ends;
/// what identifies a request is looked for in all of the text, and what the request was
/// about in the message alone. The policy is all that its pattern covers.
pub proof fn law_patterns_find_their_parts(text: Seq<char>, pattern: Seq<char>)
    ensures
        regex_group(pattern, text, 1) is None ==> captured(text, pattern) is None,
        regex_group(pattern, text, 1) matches Some(found) ==> captured(text, pattern) == Some(
            trimmed(found),
        ),
        text_matches(text).code == captured(text, CODE_PATTERN@),
        text_matches(text).cli_code == captured(text, CLI_CODE_PATTERN@),
        text_matches(text).message == captured(text, MESSAGE_PATTERN@),
        text_matches(text).operation == captured(text, OPERATION_PATTERN@),
        text_matches(text).request_id == captured(text, REQUEST_ID_PATTERN@),
        text_matches(text).authorization_id == captured(text, AUTHORIZATION_ID_PATTERN@),
        text_matches(text).encoded_message == captured(text, ENCODED_MESSAGE_PATTERN@),
        message_matches(text).lower == lower_case(text),
        message_matches(text).action == captured(text, ACTION_PATTERN@),
        message_matches(text).resource == captured(text, RESOURCE_PATTERN@),
        message_matches(text).principal_arn == captured(text, PRINCIPAL_PATTERN@),
        message_matches(text).policy == regex_group(POLICY_PATTERN@, text, 0),
{
}

} // verus!
