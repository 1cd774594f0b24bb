//! Reads what AWS says about the evaluation of a request, live or simulated.
use vstd::prelude::*;

use crate::json::{
    as_bool, as_text, find_text, first_text, items_of, json_string, member, text_member, Json,
};
use crate::model::{
    lemma_views_push, opt_view, views, AuthorizationResult, AuthorizationView, Confidence, Decision,
    DenyCause, EvidenceSource,
};
use crate::outside::{lower_case, to_lower};
use crate::text::{
    ascii_lower, contains, equal_ignoring_case, lemma_texts_push, lower_ascii, occurs_in, opt_text,
    remove_char, same_ignoring_case, same_text, strs, texts, without_char,
};

verus! {

/// The decision that AWS writes down in one of several spellings.
pub open spec fn decision_of(word: Seq<char>) -> Decision {
    let plain = without_char(ascii_lower(word), '_');
    if plain == "allow"@ || plain == "allowed"@ {
        Decision::Allowed
    } else if plain == "explicitdeny"@ {
        Decision::ExplicitDeny
    } else if plain == "implicitdeny"@ {
        Decision::ImplicitDeny
    } else {
        Decision::Unknown
    }
}

/// The decision that a message in lower case states.
pub open spec fn decision_in(lower: Seq<char>) -> Decision {
    if occurs_in(lower, "explicit deny"@) {
        Decision::ExplicitDeny
    } else if occurs_in(lower, "no "@) && occurs_in(lower, "policy allows"@) {
        Decision::ImplicitDeny
    } else {
        Decision::Unknown
    }
}

/// The cause that a type of policy, in lower case, stands for.
pub open spec fn cause_of_type(lower: Seq<char>, decision: Decision) -> DenyCause {
    if occurs_in(lower, "permissions boundary"@) {
        DenyCause::PermissionsBoundary
    } else if occurs_in(lower, "service control"@) || lower == "scp"@ {
        DenyCause::ServiceControlPolicy
    } else if occurs_in(lower, "resource control"@) || lower == "rcp"@ {
        DenyCause::ResourceControlPolicy
    } else if occurs_in(lower, "resource"@) {
        DenyCause::ResourcePolicy
    } else if occurs_in(lower, "session"@) {
        DenyCause::SessionPolicy
    } else if occurs_in(lower, "identity"@) && decision == Decision::ExplicitDeny {
        DenyCause::IdentityPolicyExplicitDeny
    } else if occurs_in(lower, "identity"@) {
        DenyCause::MissingIdentityAllow
    } else {
        DenyCause::Unknown
    }
}

/// The decision that AWS writes down in one of several spellings.
pub fn parse_decision(value: &str) -> (r: Decision)
    ensures
        r == decision_of(value@),
{
    let lower = lower_ascii(value);
    let plain = remove_char(lower.as_str(), '_');
    let word = plain.as_str();
    if same_text(word, "allow") || same_text(word, "allowed") {
        Decision::Allowed
    } else if same_text(word, "explicitdeny") {
        Decision::ExplicitDeny
    } else if same_text(word, "implicitdeny") {
        Decision::ImplicitDeny
    } else {
        Decision::Unknown
    }
}

/// The decision that a message states.
pub fn decision_from_message(message: &str) -> (r: Decision)
    ensures
        r == decision_in(lower_case(message@)),
{
    let lower = to_lower(message);
    decision_from_lower(lower.as_str())
}

/// The decision that a message in lower case states.
pub fn decision_from_lower(lower: &str) -> (r: Decision)
    ensures
        r == decision_in(lower@),
{
    if contains(lower, "explicit deny") {
        Decision::ExplicitDeny
    } else if contains(lower, "no ") && contains(lower, "policy allows") {
        Decision::ImplicitDeny
    } else {
        Decision::Unknown
    }
}

/// The cause that a type of policy stands for.
pub fn cause_from_policy_type(kind: &str, decision: Decision) -> (r: DenyCause)
    ensures
        r == cause_of_type(lower_case(kind@), decision),
{
    let lower = to_lower(kind);
    cause_from_lower_type(lower.as_str(), decision)
}

/// The cause that a type of policy, in lower case, stands for.
pub fn cause_from_lower_type(lower: &str, decision: Decision) -> (r: DenyCause)
    ensures
        r == cause_of_type(lower@, decision),
{
    if contains(lower, "permissions boundary") {
        DenyCause::PermissionsBoundary
    } else if contains(lower, "service control") || same_text(lower, "scp") {
        DenyCause::ServiceControlPolicy
    } else if contains(lower, "resource control") || same_text(lower, "rcp") {
        DenyCause::ResourceControlPolicy
    } else if contains(lower, "resource") {
        DenyCause::ResourcePolicy
    } else if contains(lower, "session") {
        DenyCause::SessionPolicy
    } else if contains(lower, "identity") && decision == Decision::ExplicitDeny {
        DenyCause::IdentityPolicyExplicitDeny
    } else if contains(lower, "identity") {
        DenyCause::MissingIdentityAllow
    } else {
        DenyCause::Unknown
    }
}

/// A statement that denies explicitly.
pub open spec fn denies(statement: Json) -> bool {
    match text_member(statement, "evaluatedEffect"@) {
        Some(effect) => same_ignoring_case(effect, "EXPLICIT_DENY"@),
        None => false,
    }
}

/// A policy of which a statement that matched denies explicitly.
pub open spec fn has_denial(policy: Json) -> bool {
    let statements = items_of(member(policy, "matchedStatements"@));
    exists|i: int| 0 <= i < statements.len() && denies(#[trigger] statements[i])
}

/// The first policy with an explicit denial from `from` on.
pub open spec fn first_denying(policies: Seq<Json>, from: int) -> Option<Json>
    decreases policies.len() - from,
{
    if from < 0 || from >= policies.len() {
        None
    } else if has_denial(policies[from]) {
        Some(policies[from])
    } else {
        first_denying(policies, from + 1)
    }
}

/// The policy that decided an evaluation: the first that denies explicitly, else
/// the first that matched.
pub open spec fn deciding_policy(evaluation: Json) -> Option<Json> {
    let policies = items_of(member(evaluation, "matchedPolicies"@));
    match first_denying(policies, 0) {
        Some(policy) => Some(policy),
        None => if policies.len() > 0 {
            Some(policies[0])
        } else {
            None
        },
    }
}

/// The type of the policy with that identifier. Of several the last one counts;
/// those without an identifier or a type do not.
pub open spec fn type_of_policy(policies: Seq<Json>, uri: Seq<char>) -> Option<Seq<char>>
    decreases policies.len(),
{
    if policies.len() == 0 {
        None
    } else {
        let last = policies.last();
        let kind = text_member(last, "type"@);
        if text_member(last, "uri"@) == Some(uri) && kind is Some {
            kind
        } else {
            type_of_policy(policies.drop_last(), uri)
        }
    }
}

/// What AWS says of one evaluation of the live request, where `policies` are the
/// policies of the response.
pub open spec fn verified_result(evaluation: Json, policies: Seq<Json>) -> AuthorizationView {
    let decision = decision_of(
        match text_member(evaluation, "evaluatedEffect"@) {
            Some(effect) => effect,
            None => ""@,
        },
    );
    let policy = match deciding_policy(evaluation) {
        Some(item) => text_member(item, "uri"@),
        None => None,
    };
    let kind = match policy {
        Some(uri) => type_of_policy(policies, uri),
        None => None,
    };
    AuthorizationView {
        action: text_member(evaluation, "action"@),
        resource: text_member(evaluation, "resource"@),
        decision,
        cause: match kind {
            Some(k) => Some(cause_of_type(lower_case(k), decision)),
            None => if decision != Decision::Allowed {
                Some(DenyCause::Unknown)
            } else {
                None
            },
        },
        policy,
        evidence_source: EvidenceSource::RequestAuthorizationDetails,
        confidence: Confidence::Verified,
        missing_context: Seq::empty(),
    }
}

/// What AWS says of the evaluations of the live request.
pub open spec fn verified_results(value: Json) -> Seq<AuthorizationView> {
    let policies = items_of(member(value, "policies"@));
    items_of(member(value, "evaluations"@)).map_values(
        |evaluation: Json| verified_result(evaluation, policies),
    )
}

fn statement_denies(statement: &Json) -> (r: bool)
    ensures
        r == denies(*statement),
{
    match statement.get_str("evaluatedEffect") {
        Some(effect) => equal_ignoring_case(effect, "EXPLICIT_DENY"),
        None => false,
    }
}

fn policy_denies(policy: &Json) -> (r: bool)
    ensures
        r == has_denial(*policy),
{
    if let Some(statements) = policy.get_array("matchedStatements") {
        let mut i: usize = 0;
        while i < statements.len()
            invariant
                i <= statements@.len(),
                items_of(member(*policy, "matchedStatements"@)) == statements@,
                forall|k: int| 0 <= k < i ==> !denies(#[trigger] statements@[k]),
            decreases statements.len() - i,
        {
            if statement_denies(&statements[i]) {
                return true;
            }
            i += 1;
        }
    }
    false
}

fn find_deciding_policy(evaluation: &Json) -> (r: Option<&Json>)
    ensures
        match deciding_policy(*evaluation) {
            Some(policy) => r == Some(&policy),
            None => r is None,
        },
{
    if let Some(policies) = evaluation.get_array("matchedPolicies") {
        let mut i: usize = 0;
        while i < policies.len()
            invariant
                i <= policies@.len(),
                items_of(member(*evaluation, "matchedPolicies"@)) == policies@,
                first_denying(policies@, 0) == first_denying(policies@, i as int),
            decreases policies.len() - i,
        {
            if policy_denies(&policies[i]) {
                return Some(&policies[i]);
            }
            i += 1;
        }
        if policies.len() > 0 {
            return Some(&policies[0]);
        }
    }
    None
}

fn find_policy_type(value: &Json, uri: &str) -> (r: Option<String>)
    ensures
        opt_text(r) == type_of_policy(items_of(member(*value, "policies"@)), uri@),
{
    if let Some(policies) = value.get_array("policies") {
        let mut end: usize = policies.len();
        assert(policies@.take(end as int) =~= policies@);
        while end > 0
            invariant
                end <= policies@.len(),
                items_of(member(*value, "policies"@)) == policies@,
                type_of_policy(policies@, uri@) == type_of_policy(
                    policies@.take(end as int),
                    uri@,
                ),
            decreases end,
        {
            let policy = &policies[end - 1];
            assert(policies@.take(end as int).drop_last() =~= policies@.take(end - 1));
            assert(policies@.take(end as int).last() == policy);
            if let (Some(name), Some(kind)) = (policy.get_str("uri"), policy.get_str("type")) {
                if same_text(name, uri) {
                    return Some(kind.to_owned());
                }
            }
            end -= 1;
        }
    }
    None
}

/// What AWS says of the evaluations of the live request.
pub fn parse_request_authorization_details(value: &Json) -> (r: Vec<AuthorizationResult>)
    ensures
        views(r@) == verified_results(*value),
{
    let mut results: Vec<AuthorizationResult> = Vec::new();
    if let Some(evaluations) = value.get_array("evaluations") {
        let mut i: usize = 0;
        while i < evaluations.len()
            invariant
                i <= evaluations@.len(),
                items_of(member(*value, "evaluations"@)) == evaluations@,
                views(results@) =~= verified_results(*value).take(i as int),
            decreases evaluations.len() - i,
        {
            broadcast use {lemma_views_push, lemma_texts_push};

            let evaluation = &evaluations[i];
            let decision = match evaluation.get_str("evaluatedEffect") {
                Some(effect) => parse_decision(effect),
                None => parse_decision(""),
            };
            let policy = match find_deciding_policy(evaluation) {
                Some(item) => item.get_string("uri"),
                None => None,
            };
            let kind = match &policy {
                Some(uri) => find_policy_type(value, uri.as_str()),
                None => None,
            };
            let cause = match &kind {
                Some(k) => Some(cause_from_policy_type(k.as_str(), decision)),
                None => if decision != Decision::Allowed {
                    Some(DenyCause::Unknown)
                } else {
                    None
                },
            };
            let missing_context: Vec<String> = Vec::new();
            assert(texts(missing_context@) =~= Seq::<Seq<char>>::empty());
            let result = AuthorizationResult {
                action: evaluation.get_string("action"),
                resource: evaluation.get_string("resource"),
                decision,
                cause,
                policy,
                evidence_source: EvidenceSource::RequestAuthorizationDetails,
                confidence: Confidence::Verified,
                missing_context,
            };
            assert(result@ == verified_results(*value)[i as int]);
            results.push(result);
            i += 1;
        }
    }
    results
}

/// What a decoded authorization message says.
pub open spec fn decoded_result(value: Json) -> AuthorizationView {
    let explicit = as_bool(member(value, "explicitDeny"@)) == Some(true);
    let allowed = as_bool(member(value, "allowed"@)) == Some(true);
    let context = match member(value, "context"@) {
        Some(c) => c,
        None => value,
    };
    AuthorizationView {
        action: find_text(context, seq!["action"@]),
        resource: find_text(context, seq!["resource"@]),
        decision: if allowed {
            Decision::Allowed
        } else if explicit {
            Decision::ExplicitDeny
        } else {
            Decision::ImplicitDeny
        },
        cause: Some(
            if explicit {
                DenyCause::IdentityPolicyExplicitDeny
            } else {
                DenyCause::Unknown
            },
        ),
        policy: None,
        evidence_source: EvidenceSource::DecodedAuthorizationMessage,
        confidence: Confidence::Verified,
        missing_context: Seq::empty(),
    }
}

/// What a decoded authorization message says.
pub fn parse_decoded_message(value: &Json) -> (r: AuthorizationResult)
    ensures
        r@ == decoded_result(*value),
{
    let explicit = match value.get_bool("explicitDeny") {
        Some(b) => b,
        None => false,
    };
    let allowed = match value.get_bool("allowed") {
        Some(b) => b,
        None => false,
    };
    let context = match value.get("context") {
        Some(c) => c,
        None => value,
    };
    let action_names = ["action"];
    let resource_names = ["resource"];
    assert(strs(action_names@) =~= seq!["action"@]);
    assert(strs(resource_names@) =~= seq!["resource"@]);
    let missing_context: Vec<String> = Vec::new();
    assert(texts(missing_context@) =~= Seq::<Seq<char>>::empty());
    AuthorizationResult {
        action: json_string(context, &action_names),
        resource: json_string(context, &resource_names),
        decision: if allowed {
            Decision::Allowed
        } else if explicit {
            Decision::ExplicitDeny
        } else {
            Decision::ImplicitDeny
        },
        cause: Some(
            if explicit {
                DenyCause::IdentityPolicyExplicitDeny
            } else {
                DenyCause::Unknown
            },
        ),
        policy: None,
        evidence_source: EvidenceSource::DecodedAuthorizationMessage,
        confidence: Confidence::Verified,
        missing_context,
    }
}

/// The texts among the items of a list.
pub open spec fn text_items(items: Seq<Json>) -> Seq<Seq<char>>
    decreases items.len(),
{
    if items.len() == 0 {
        Seq::empty()
    } else {
        match as_text(Some(items.last())) {
            Some(text) => text_items(items.drop_last()).push(text),
            None => text_items(items.drop_last()),
        }
    }
}

/// The truth value that an object in an object holds.
pub open spec fn inner_bool(value: Json, outer: Seq<char>, inner: Seq<char>) -> Option<bool> {
    match member(value, outer) {
        Some(object) => as_bool(member(object, inner)),
        None => None,
    }
}

/// Why a simulated request is not allowed. A boundary goes before the
/// organization, and both before missing context, which goes before what the
/// statement that matched tells.
pub open spec fn simulated_cause(evaluation: Json, decision: Decision) -> Option<DenyCause> {
    let statements = items_of(member(evaluation, "MatchedStatements"@));
    let kind = if statements.len() > 0 {
        text_member(statements[0], "SourcePolicyType"@)
    } else {
        None
    };
    if decision == Decision::Allowed {
        None
    } else if inner_bool(
        evaluation,
        "PermissionsBoundaryDecisionDetail"@,
        "AllowedByPermissionsBoundary"@,
    ) == Some(false) {
        Some(DenyCause::PermissionsBoundary)
    } else if inner_bool(evaluation, "OrganizationsDecisionDetail"@, "AllowedByOrganizations"@)
        == Some(false) {
        Some(DenyCause::ServiceControlPolicy)
    } else if text_items(items_of(member(evaluation, "MissingContextValues"@))).len() > 0 {
        Some(DenyCause::Condition)
    } else if kind is Some {
        Some(cause_of_type(lower_case(kind.unwrap()), decision))
    } else if decision == Decision::ImplicitDeny {
        Some(DenyCause::MissingIdentityAllow)
    } else {
        Some(DenyCause::Unknown)
    }
}

/// What IAM says of one simulated request; `action` and `resource` stand in where
/// it does not repeat them.
pub open spec fn simulated_result(
    evaluation: Json,
    action: Seq<char>,
    resource: Seq<char>,
) -> Option<AuthorizationView> {
    match text_member(evaluation, "EvalDecision"@) {
        None => None,
        Some(word) => {
            let decision = decision_of(word);
            let statements = items_of(member(evaluation, "MatchedStatements"@));
            Some(
                AuthorizationView {
                    action: match text_member(evaluation, "EvalActionName"@) {
                        Some(name) => Some(name),
                        None => Some(action),
                    },
                    resource: match text_member(evaluation, "EvalResourceName"@) {
                        Some(name) => Some(name),
                        None => Some(resource),
                    },
                    decision,
                    cause: simulated_cause(evaluation, decision),
                    policy: if statements.len() > 0 {
                        text_member(statements[0], "SourcePolicyId"@)
                    } else {
                        None
                    },
                    evidence_source: EvidenceSource::PolicySimulation,
                    confidence: Confidence::Simulated,
                    missing_context: text_items(
                        items_of(member(evaluation, "MissingContextValues"@)),
                    ),
                },
            )
        },
    }
}

/// What IAM says of the simulated requests that it says anything of.
pub open spec fn simulated_results(evaluations: Seq<Json>) -> Seq<AuthorizationView>
    decreases evaluations.len(),
{
    if evaluations.len() == 0 {
        Seq::empty()
    } else {
        let front = simulated_results(evaluations.drop_last());
        match simulated_result(evaluations.last(), "unknown:Unknown"@, "*"@) {
            Some(result) => front.push(result),
            None => front,
        }
    }
}

/// What IAM says of the one request that was simulated.
pub open spec fn single_simulation(value: Json, action: Seq<char>, resource: Seq<char>) -> Option<
    AuthorizationView,
> {
    let evaluations = items_of(member(value, "EvaluationResults"@));
    if evaluations.len() > 0 {
        simulated_result(evaluations[0], action, resource)
    } else {
        None
    }
}

fn get_inner_bool(value: &Json, outer: &str, inner: &str) -> (r: Option<bool>)
    ensures
        r == inner_bool(*value, outer@, inner@),
{
    match value.get(outer) {
        Some(object) => object.get_bool(inner),
        None => None,
    }
}

fn collect_texts(items: &Vec<Json>) -> (r: Vec<String>)
    ensures
        texts(r@) == text_items(items@),
{
    let mut out: Vec<String> = Vec::new();
    let mut i: usize = 0;
    while i < items.len()
        invariant
            i <= items@.len(),
            texts(out@) =~= text_items(items@.take(i as int)),
        decreases items.len() - i,
    {
        broadcast use lemma_texts_push;

        assert(items@.take(i + 1).drop_last() =~= items@.take(i as int));
        if let Some(text) = items[i].as_str() {
            out.push(text.to_owned());
        }
        i += 1;
    }
    assert(items@.take(i as int) =~= items@);
    out
}

fn first_statement(evaluation: &Json) -> (r: Option<&Json>)
    ensures
        ({
            let statements = items_of(member(*evaluation, "MatchedStatements"@));
            match r {
                Some(statement) => statements.len() > 0 && *statement == statements[0],
                None => statements.len() == 0,
            }
        }),
{
    if let Some(statements) = evaluation.get_array("MatchedStatements") {
        if statements.len() > 0 {
            return Some(&statements[0]);
        }
    }
    None
}

/// What IAM says of one simulated request.
pub fn parse_simulation_evaluation(evaluation: &Json, action: &str, resource: &str) -> (r: Option<
    AuthorizationResult,
>)
    ensures
        opt_view(r) == simulated_result(*evaluation, action@, resource@),
{
    let decision = match evaluation.get_str("EvalDecision") {
        Some(word) => parse_decision(word),
        None => {
            return None;
        },
    };
    let boundary_allows = get_inner_bool(
        evaluation,
        "PermissionsBoundaryDecisionDetail",
        "AllowedByPermissionsBoundary",
    );
    let organization_allows = get_inner_bool(
        evaluation,
        "OrganizationsDecisionDetail",
        "AllowedByOrganizations",
    );
    let matched = first_statement(evaluation);
    let policy = match matched {
        Some(item) => item.get_string("SourcePolicyId"),
        None => None,
    };
    let policy_type = match matched {
        Some(item) => item.get_str("SourcePolicyType"),
        None => None,
    };
    let missing_context = match evaluation.get_array("MissingContextValues") {
        Some(items) => collect_texts(items),
        None => Vec::new(),
    };
    assert(texts(missing_context@) =~= text_items(
        items_of(member(*evaluation, "MissingContextValues"@)),
    ));
    let cause = if decision == Decision::Allowed {
        None
    } else if boundary_allows == Some(false) {
        Some(DenyCause::PermissionsBoundary)
    } else if organization_allows == Some(false) {
        Some(DenyCause::ServiceControlPolicy)
    } else if missing_context.len() > 0 {
        Some(DenyCause::Condition)
    } else if let Some(kind) = policy_type {
        Some(cause_from_policy_type(kind, decision))
    } else if decision == Decision::ImplicitDeny {
        Some(DenyCause::MissingIdentityAllow)
    } else {
        Some(DenyCause::Unknown)
    };
    Some(
        AuthorizationResult {
            action: match evaluation.get_string("EvalActionName") {
                Some(name) => Some(name),
                None => Some(action.to_owned()),
            },
            resource: match evaluation.get_string("EvalResourceName") {
                Some(name) => Some(name),
                None => Some(resource.to_owned()),
            },
            decision,
            cause,
            policy,
            evidence_source: EvidenceSource::PolicySimulation,
            confidence: Confidence::Simulated,
            missing_context,
        },
    )
}

/// What IAM says of the simulated requests that it says anything of.
pub fn parse_simulations(value: &Json) -> (r: Vec<AuthorizationResult>)
    ensures
        views(r@) == simulated_results(items_of(member(*value, "EvaluationResults"@))),
{
    let mut out: Vec<AuthorizationResult> = Vec::new();
    if let Some(evaluations) = value.get_array("EvaluationResults") {
        let mut i: usize = 0;
        while i < evaluations.len()
            invariant
                i <= evaluations@.len(),
                views(out@) =~= simulated_results(evaluations@.take(i as int)),
            decreases evaluations.len() - i,
        {
            broadcast use lemma_views_push;

            assert(evaluations@.take(i + 1).drop_last() =~= evaluations@.take(i as int));
            if let Some(result) = parse_simulation_evaluation(
                &evaluations[i],
                "unknown:Unknown",
                "*",
            ) {
                out.push(result);
            }
            i += 1;
        }
        assert(evaluations@.take(i as int) =~= evaluations@);
    }
    assert(views(out@) =~= simulated_results(items_of(member(*value, "EvaluationResults"@))));
    out
}

/// What IAM says of the one request that was simulated.
pub fn parse_simulation(value: &Json, action: &str, resource: &str) -> (r: Option<
    AuthorizationResult,
>)
    ensures
        opt_view(r) == single_simulation(*value, action@, resource@),
{
    if let Some(evaluations) = value.get_array("EvaluationResults") {
        if evaluations.len() > 0 {
            return parse_simulation_evaluation(&evaluations[0], action, resource);
        }
    }
    None
}

/// The letters of a word tell the decision, whatever their case and the underscores
/// between them: `allow` and `allowed` allow, `explicitdeny` and `implicitdeny` deny,
/// and nothing else says anything.
pub proof fn law_words_tell_decisions(word: Seq<char>)
    ensures
        ({
            let letters = without_char(ascii_lower(word), '_');
            &&& decision_of(word) == Decision::Allowed <==> letters == "allow"@ || letters
                == "allowed"@
            &&& decision_of(word) == Decision::ExplicitDeny <==> letters == "explicitdeny"@
            &&& decision_of(word) == Decision::ImplicitDeny <==> letters == "implicitdeny"@
        }),
{
    reveal_strlit("allow");
    reveal_strlit("allowed");
    reveal_strlit("explicitdeny");
    reveal_strlit("implicitdeny");
    assert("explicitdeny"@[0] == 'e' && "implicitdeny"@[0] == 'i');
}

/// An explicit deny is told from a missing allow by the words of the message, and
/// nothing but those words tells either.
pub proof fn law_messages_tell_decisions(lower: Seq<char>)
    ensures
        decision_in(lower) != Decision::Allowed,
        decision_in(lower) == Decision::ExplicitDeny <==> occurs_in(lower, "explicit deny"@),
        decision_in(lower) == Decision::ImplicitDeny <==> !occurs_in(lower, "explicit deny"@)
            && occurs_in(lower, "no "@) && occurs_in(lower, "policy allows"@),
{
}

/// The type of a policy tells the layer that denies. A boundary goes before the
/// policies of an organization, those before the policy of the resource, that one
/// before the policy of the session, and an identity policy comes last. Only there
/// does the decision count: an explicit deny is told apart from a missing allow.
pub proof fn law_policy_types_tell_layers(lower: Seq<char>, decision: Decision)
    ensures
        ({
            let cause = cause_of_type(lower, decision);
            let boundary = occurs_in(lower, "permissions boundary"@);
            let service = occurs_in(lower, "service control"@) || lower == "scp"@;
            let control = occurs_in(lower, "resource control"@) || lower == "rcp"@;
            let resource = occurs_in(lower, "resource"@);
            let session = occurs_in(lower, "session"@);
            let identity = occurs_in(lower, "identity"@) && !boundary && !service && !control
                && !resource && !session;
            &&& cause == DenyCause::PermissionsBoundary <==> boundary
            &&& cause == DenyCause::ServiceControlPolicy <==> service && !boundary
            &&& cause == DenyCause::ResourceControlPolicy <==> control && !service && !boundary
            &&& cause == DenyCause::ResourcePolicy <==> resource && !control && !service
                && !boundary
            &&& cause == DenyCause::SessionPolicy <==> session && !resource && !control && !service
                && !boundary
            &&& cause == DenyCause::IdentityPolicyExplicitDeny <==> identity && decision
                == Decision::ExplicitDeny
            &&& cause == DenyCause::MissingIdentityAllow <==> identity && decision
                != Decision::ExplicitDeny
            &&& cause != DenyCause::Condition && cause != DenyCause::VpcEndpointPolicy && cause
                != DenyCause::RoleTrustPolicy && cause != DenyCause::KmsKeyPolicy
        }),
{
}

/// The statement at a position among those of a matched policy reads
/// `EXPLICIT_DENY`, in any case.
pub open spec fn reads_explicit_deny(policy: Json, at: int) -> bool {
    let statements = items_of(member(policy, "matchedStatements"@));
    0 <= at < statements.len() && match member(statements[at], "evaluatedEffect"@) {
        Some(Json::Text(effect)) => ascii_lower(effect@) == "explicit_deny"@,
        _ => false,
    }
}

proof fn lemma_reads_explicit_deny(policy: Json)
    ensures
        has_denial(policy) <==> exists|at: int| reads_explicit_deny(policy, at),
{
    reveal_strlit("EXPLICIT_DENY");
    reveal_strlit("explicit_deny");
    assert(ascii_lower("EXPLICIT_DENY"@) =~= "explicit_deny"@);
    let statements = items_of(member(policy, "matchedStatements"@));
    assert forall|at: int| 0 <= at < statements.len() implies denies(#[trigger] statements[at])
        == reads_explicit_deny(policy, at) by {}
    if has_denial(policy) {
        let at = choose|at: int| 0 <= at < statements.len() && denies(#[trigger] statements[at]);
        assert(reads_explicit_deny(policy, at));
    }
    if exists|at: int| reads_explicit_deny(policy, at) {
        let at = choose|at: int| reads_explicit_deny(policy, at);
        assert(denies(statements[at]));
    }
}

proof fn lemma_first_denying(policies: Seq<Json>, from: int)
    requires
        0 <= from,
    ensures
        match first_denying(policies, from) {
            Some(policy) => exists|k: int|
                from <= k < policies.len() && policy == #[trigger] policies[k] && has_denial(policy)
                    && forall|j: int| from <= j < k ==> !has_denial(#[trigger] policies[j]),
            None => forall|j: int| from <= j < policies.len() ==> !has_denial(#[trigger] policies[j]),
        },
    decreases policies.len() - from,
{
    if from < policies.len() {
        if has_denial(policies[from]) {
            assert(policies[from] == policies[from]);
        } else {
            lemma_first_denying(policies, from + 1);
        }
    }
}

/// A denial is put down to a policy that denies. Where some matched policy of an
/// evaluation has a statement that reads `EXPLICIT_DENY`, the policy that is told is
/// the first such one: no policy in front of it has such a statement.
pub proof fn law_a_denying_policy_is_told(value: Json, i: int, policy: int, statement: int)
    requires
        ({
            let evaluations = items_of(member(value, "evaluations"@));
            let matched = items_of(member(evaluations[i], "matchedPolicies"@));
            &&& 0 <= i < evaluations.len()
            &&& 0 <= policy < matched.len()
            &&& reads_explicit_deny(matched[policy], statement)
        }),
    ensures
        ({
            let evaluations = items_of(member(value, "evaluations"@));
            let matched = items_of(member(evaluations[i], "matchedPolicies"@));
            &&& verified_results(value).len() == evaluations.len()
            &&& exists|k: int|
                0 <= k <= policy && (exists|at: int| reads_explicit_deny(matched[k], at)) && (
                forall|j: int, at: int|
                    0 <= j < k ==> !#[trigger] reads_explicit_deny(matched[j], at))
                    && verified_results(value)[i].policy == #[trigger] text_member(
                    matched[k],
                    "uri"@,
                )
        }),
{
    let evaluations = items_of(member(value, "evaluations"@));
    let matched = items_of(member(evaluations[i], "matchedPolicies"@));
    lemma_first_denying(matched, 0);
    lemma_reads_explicit_deny(matched[policy]);
    assert(has_denial(matched[policy]));
    let told = first_denying(matched, 0).unwrap();
    let k = choose|k: int|
        0 <= k < matched.len() && told == #[trigger] matched[k] && has_denial(told) && forall|j: int|
            0 <= j < k ==> !has_denial(#[trigger] matched[j]);
    lemma_reads_explicit_deny(matched[k]);
    assert forall|j: int, at: int| 0 <= j < k implies !#[trigger] reads_explicit_deny(
        matched[j],
        at,
    ) by {
        lemma_reads_explicit_deny(matched[j]);
        assert(!has_denial(matched[j]));
    }
    assert(verified_results(value)[i].policy == text_member(matched[k], "uri"@));
}

/// Where no statement of a matched policy reads `EXPLICIT_DENY`, the first matched
/// policy is told, and none where none matched.
pub proof fn law_the_first_policy_is_told_elsewhere(value: Json, i: int)
    requires
        ({
            let evaluations = items_of(member(value, "evaluations"@));
            let matched = items_of(member(evaluations[i], "matchedPolicies"@));
            &&& 0 <= i < evaluations.len()
            &&& forall|j: int, at: int|
                0 <= j < matched.len() ==> !#[trigger] reads_explicit_deny(matched[j], at)
        }),
    ensures
        ({
            let evaluations = items_of(member(value, "evaluations"@));
            let matched = items_of(member(evaluations[i], "matchedPolicies"@));
            &&& matched.len() > 0 ==> verified_results(value)[i].policy == text_member(
                matched[0],
                "uri"@,
            )
            &&& matched.len() == 0 ==> verified_results(value)[i].policy is None
        }),
{
    let evaluations = items_of(member(value, "evaluations"@));
    let matched = items_of(member(evaluations[i], "matchedPolicies"@));
    assert forall|j: int| 0 <= j < matched.len() implies !has_denial(#[trigger] matched[j]) by {
        lemma_reads_explicit_deny(matched[j]);
    }
    lemma_first_denying(matched, 0);
}

/// A policy of a response is listed with a type.
pub open spec fn is_listed_with(policy: Json, uri: Seq<char>, kind: Seq<char>) -> bool {
    text_member(policy, "uri"@) == Some(uri) && text_member(policy, "type"@) == Some(kind)
}

proof fn lemma_type_of_policy(policies: Seq<Json>, uri: Seq<char>)
    ensures
        match type_of_policy(policies, uri) {
            Some(kind) => exists|k: int|
                0 <= k < policies.len() && is_listed_with(#[trigger] policies[k], uri, kind)
                    && forall|j: int, other: Seq<char>|
                    k < j < policies.len() ==> !#[trigger] is_listed_with(policies[j], uri, other),
            None => forall|j: int, other: Seq<char>|
                0 <= j < policies.len() ==> !#[trigger] is_listed_with(policies[j], uri, other),
        },
    decreases policies.len(),
{
    if policies.len() > 0 {
        let last = policies.last();
        let front = policies.drop_last();
        if text_member(last, "uri"@) == Some(uri) && text_member(last, "type"@) is Some {
            let kind = type_of_policy(policies, uri).unwrap();
            assert(is_listed_with(policies[policies.len() - 1], uri, kind));
        } else {
            lemma_type_of_policy(front, uri);
            assert(forall|j: int| 0 <= j < front.len() ==> front[j] == policies[j]);
            assert forall|other: Seq<char>| !#[trigger] is_listed_with(last, uri, other) by {}
            if let Some(kind) = type_of_policy(front, uri) {
                let k = choose|k: int|
                    0 <= k < front.len() && is_listed_with(#[trigger] front[k], uri, kind)
                        && forall|j: int, other: Seq<char>|
                        k < j < front.len() ==> !#[trigger] is_listed_with(front[j], uri, other);
                assert(is_listed_with(policies[k], uri, kind));
                assert forall|j: int, other: Seq<char>| k < j < policies.len() implies
                    !#[trigger] is_listed_with(policies[j], uri, other) by {
                    if j < front.len() {
                        assert(!is_listed_with(front[j], uri, other));
                    }
                }
            } else {
                assert forall|j: int, other: Seq<char>| 0 <= j < policies.len() implies
                    !#[trigger] is_listed_with(policies[j], uri, other) by {
                    if j < front.len() {
                        assert(!is_listed_with(front[j], uri, other));
                    }
                }
            }
        }
    }
}

/// An evaluation of the live request is told with its own action and resource, and
/// its effect is the decision. The type with which the response lists the policy that
/// is told, the last time that it does, tells the cause; a denial whose policy is
/// not listed has an unknown cause, and what is allowed has none.
pub proof fn law_evaluations_are_told_by_layer(value: Json, i: int)
    requires
        0 <= i < items_of(member(value, "evaluations"@)).len(),
    ensures
        ({
            let evaluation = items_of(member(value, "evaluations"@))[i];
            let listed = items_of(member(value, "policies"@));
            let result = verified_results(value)[i];
            &&& result.action == text_member(evaluation, "action"@)
            &&& result.resource == text_member(evaluation, "resource"@)
            &&& match text_member(evaluation, "evaluatedEffect"@) {
                Some(effect) => result.decision == decision_of(effect),
                None => result.decision == Decision::Unknown,
            }
            &&& result.missing_context.len() == 0
            &&& result.evidence_source == EvidenceSource::RequestAuthorizationDetails
            &&& result.confidence == Confidence::Verified
            &&& forall|k: int, uri: Seq<char>, kind: Seq<char>|
                0 <= k < listed.len() && result.policy == Some(uri) && #[trigger] is_listed_with(
                    listed[k],
                    uri,
                    kind,
                ) && (forall|j: int, other: Seq<char>|
                    k < j < listed.len() ==> !#[trigger] is_listed_with(listed[j], uri, other))
                    ==> result.cause == Some(cause_of_type(lower_case(kind), result.decision))
            &&& (forall|k: int, uri: Seq<char>, kind: Seq<char>|
                0 <= k < listed.len() && result.policy == Some(uri) ==> !#[trigger] is_listed_with(
                    listed[k],
                    uri,
                    kind,
                )) ==> result.cause == if result.decision == Decision::Allowed {
                None
            } else {
                Some(DenyCause::Unknown)
            }
        }),
{
    let evaluation = items_of(member(value, "evaluations"@))[i];
    let listed = items_of(member(value, "policies"@));
    let result = verified_results(value)[i];
    law_words_tell_decisions(""@);
    reveal_strlit("");
    reveal_strlit("allow");
    reveal_strlit("allowed");
    reveal_strlit("explicitdeny");
    reveal_strlit("implicitdeny");
    assert(without_char(ascii_lower(""@), '_').len() == 0);
    if let Some(told) = result.policy {
        lemma_type_of_policy(listed, told);
        assert forall|k: int, uri: Seq<char>, kind: Seq<char>|
            0 <= k < listed.len() && result.policy == Some(uri) && #[trigger] is_listed_with(
                listed[k],
                uri,
                kind,
            ) && (forall|j: int, other: Seq<char>|
                k < j < listed.len() ==> !#[trigger] is_listed_with(listed[j], uri, other)) implies
            result.cause == Some(cause_of_type(lower_case(kind), result.decision)) by {
            let found = type_of_policy(listed, told).unwrap();
            let m = choose|m: int|
                0 <= m < listed.len() && is_listed_with(#[trigger] listed[m], told, found)
                    && forall|j: int, other: Seq<char>|
                    m < j < listed.len() ==> !#[trigger] is_listed_with(listed[j], told, other);
            if m < k {
                assert(!is_listed_with(listed[k], told, kind));
            }
            if k < m {
                assert(!is_listed_with(listed[m], told, found));
            }
        }
    }
}

/// A decoded message is an explicit denial just where it says so and does not say
/// that the request is allowed: `true` and nothing else says either. What is neither
/// allowed nor denied explicitly is an implicit denial of an unknown cause.
pub proof fn law_decoded_messages_tell_decisions(value: Json)
    ensures
        ({
            let result = decoded_result(value);
            let allowed = member(value, "allowed"@) == Some(Json::Bool(true));
            let explicit = member(value, "explicitDeny"@) == Some(Json::Bool(true));
            &&& result.decision == Decision::Allowed <==> allowed
            &&& result.decision == Decision::ExplicitDeny <==> explicit && !allowed
            &&& result.decision == Decision::ImplicitDeny <==> !explicit && !allowed
            &&& explicit ==> result.cause == Some(DenyCause::IdentityPolicyExplicitDeny)
            &&& !explicit ==> result.cause == Some(DenyCause::Unknown)
            &&& result.policy is None
            &&& result.missing_context.len() == 0
            &&& result.evidence_source == EvidenceSource::DecodedAuthorizationMessage
            &&& result.confidence == Confidence::Verified
        }),
{
}

/// The action and the resource of a decoded message are those of its context, and
/// those of the message itself where it has none.
pub proof fn law_decoded_messages_tell_the_request(value: Json)
    ensures
        ({
            let result = decoded_result(value);
            let request = match member(value, "context"@) {
                Some(context) => context,
                None => value,
            };
            &&& text_member(request, "action"@) is Some ==> result.action == text_member(
                request,
                "action"@,
            )
            &&& text_member(request, "resource"@) is Some ==> result.resource == text_member(
                request,
                "resource"@,
            )
        }),
{
    reveal_with_fuel(first_text, 2);
    reveal_with_fuel(find_text, 2);
}

/// What a simulation decides depends on `EvalDecision` alone: whatever else two
/// evaluations say, the same word gives the same decision, and without the word
/// nothing is told.
pub proof fn law_simulated_decisions_are_read(
    evaluation: Json,
    action: Seq<char>,
    resource: Seq<char>,
)
    ensures
        match member(evaluation, "EvalDecision"@) {
            Some(Json::Text(word)) => {
                let letters = without_char(ascii_lower(word@), '_');
                &&& simulated_result(evaluation, action, resource) is Some
                &&& ({
                    let result = simulated_result(evaluation, action, resource).unwrap();
                    &&& result.decision == Decision::Allowed <==> letters == "allow"@ || letters
                        == "allowed"@
                    &&& result.decision == Decision::ExplicitDeny <==> letters == "explicitdeny"@
                    &&& result.decision == Decision::ImplicitDeny <==> letters == "implicitdeny"@
                    &&& result.evidence_source == EvidenceSource::PolicySimulation
                    &&& result.confidence == Confidence::Simulated
                })
            },
            _ => simulated_result(evaluation, action, resource) is None,
        },
{
    if let Some(Json::Text(word)) = member(evaluation, "EvalDecision"@) {
        law_words_tell_decisions(word@);
    }
}

/// A simulated result is told for the action and the resource that IAM repeats, and
/// for those that were asked for where it repeats none. The first statement that
/// matched names the policy.
pub proof fn law_simulated_results_tell_the_request(
    evaluation: Json,
    action: Seq<char>,
    resource: Seq<char>,
)
    ensures
        simulated_result(evaluation, action, resource) matches Some(result) ==> {
            let statements = items_of(member(evaluation, "MatchedStatements"@));
            &&& text_member(evaluation, "EvalActionName"@) matches Some(name) ==> result.action
                == Some(name)
            &&& text_member(evaluation, "EvalActionName"@) is None ==> result.action == Some(action)
            &&& text_member(evaluation, "EvalResourceName"@) matches Some(name) ==> result.resource
                == Some(name)
            &&& text_member(evaluation, "EvalResourceName"@) is None ==> result.resource == Some(
                resource,
            )
            &&& statements.len() > 0 ==> result.policy == text_member(
                statements[0],
                "SourcePolicyId"@,
            )
            &&& statements.len() == 0 ==> result.policy is None
        },
{
}

/// What is allowed has no cause. Of what is not, a boundary that does not allow it is
/// the cause; else an organization that does not; else context that is missing; else
/// what the type of the first policy that matched tells; and where none matched, that
/// no policy allows it.
pub proof fn law_simulated_causes_are_ranked(
    evaluation: Json,
    action: Seq<char>,
    resource: Seq<char>,
)
    ensures
        simulated_result(evaluation, action, resource) matches Some(result) ==> {
            let boundary = member(evaluation, "PermissionsBoundaryDecisionDetail"@) matches Some(
                detail,
            ) && member(detail, "AllowedByPermissionsBoundary"@) == Some(Json::Bool(false));
            let organization = member(evaluation, "OrganizationsDecisionDetail"@) matches Some(
                detail,
            ) && member(detail, "AllowedByOrganizations"@) == Some(Json::Bool(false));
            let statements = items_of(member(evaluation, "MatchedStatements"@));
            let kind = if statements.len() > 0 {
                text_member(statements[0], "SourcePolicyType"@)
            } else {
                None
            };
            let denied = result.decision != Decision::Allowed;
            let open = denied && !boundary && !organization && result.missing_context.len() == 0;
            &&& result.cause is None <==> !denied
            &&& denied && boundary ==> result.cause == Some(DenyCause::PermissionsBoundary)
            &&& denied && !boundary && organization ==> result.cause == Some(
                DenyCause::ServiceControlPolicy,
            )
            &&& result.cause == Some(DenyCause::Condition) <==> denied && !boundary && !organization
                && result.missing_context.len() > 0
            &&& open ==> (kind matches Some(k) ==> result.cause == Some(
                cause_of_type(lower_case(k), result.decision),
            ))
            &&& open && kind is None && result.decision == Decision::ImplicitDeny ==> result.cause
                == Some(DenyCause::MissingIdentityAllow)
            &&& open && kind is None && result.decision != Decision::ImplicitDeny ==> result.cause
                == Some(DenyCause::Unknown)
        },
{
    if let Some(result) = simulated_result(evaluation, action, resource) {
        assert forall|lower: Seq<char>| cause_of_type(lower, result.decision)
            != DenyCause::Condition by {
            law_policy_types_tell_layers(lower, result.decision);
        }
    }
}

proof fn lemma_text_items(items: Seq<Json>, more: Seq<Json>)
    ensures
        text_items(items + more) == text_items(items) + text_items(more),
    decreases more.len(),
{
    if more.len() == 0 {
        assert(items + more =~= items);
        assert(text_items(items) + text_items(more) =~= text_items(items));
    } else {
        assert((items + more).drop_last() =~= items + more.drop_last());
        lemma_text_items(items, more.drop_last());
        assert(text_items(items + more) =~= text_items(items) + text_items(more));
    }
}

/// The context that is missing is told in the order in which IAM lists it: what two
/// lists hold comes one behind the other, a text stays and nothing else does.
pub proof fn law_missing_context_is_listed(
    evaluation: Json,
    action: Seq<char>,
    resource: Seq<char>,
    items: Seq<Json>,
    more: Seq<Json>,
    item: Json,
)
    ensures
        simulated_result(evaluation, action, resource) matches Some(result)
            ==> result.missing_context == text_items(
            items_of(member(evaluation, "MissingContextValues"@)),
        ),
        text_items(items + more) == text_items(items) + text_items(more),
        text_items(seq![item]) == match item {
            Json::Text(text) => seq![text@],
            _ => Seq::empty(),
        },
{
    lemma_text_items(items, more);
    assert(seq![item].drop_last() =~= Seq::<Json>::empty());
    reveal_with_fuel(text_items, 2);
    assert(text_items(seq![item]) =~= match item {
        Json::Text(text) => seq![text@],
        _ => Seq::empty(),
    });
}

proof fn lemma_simulated_results(evaluations: Seq<Json>)
    ensures
        simulated_results(evaluations).len() <= evaluations.len(),
        simulated_results(evaluations).len() == evaluations.len() ==> forall|i: int|
            0 <= i < evaluations.len() ==> simulated_result(
                #[trigger] evaluations[i],
                "unknown:Unknown"@,
                "*"@,
            ) == Some(simulated_results(evaluations)[i]),
        simulated_results(evaluations).len() < evaluations.len() ==> exists|i: int|
            0 <= i < evaluations.len() && text_member(#[trigger] evaluations[i], "EvalDecision"@)
                is None,
    decreases evaluations.len(),
{
    if evaluations.len() > 0 {
        let front = evaluations.drop_last();
        lemma_simulated_results(front);
        assert(forall|i: int| 0 <= i < front.len() ==> front[i] == evaluations[i]);
        if simulated_results(evaluations).len() < evaluations.len() {
            if simulated_results(front).len() < front.len() {
                let i = choose|i: int|
                    0 <= i < front.len() && text_member(#[trigger] front[i], "EvalDecision"@) is None;
                assert(text_member(evaluations[i], "EvalDecision"@) is None);
            } else {
                assert(text_member(evaluations[evaluations.len() - 1], "EvalDecision"@) is None);
            }
        }
    }
}

/// Where every evaluation of a simulation says what was decided, each has its result,
/// in the same order; one that does not say has none.
pub proof fn law_each_evaluation_has_its_result(evaluations: Seq<Json>, i: int)
    requires
        0 <= i < evaluations.len(),
    ensures
        simulated_results(evaluations).len() <= evaluations.len(),
        simulated_results(evaluations).len() == evaluations.len() <==> forall|k: int|
            0 <= k < evaluations.len() ==> text_member(#[trigger] evaluations[k], "EvalDecision"@)
                is Some,
        simulated_results(evaluations).len() == evaluations.len() ==> Some(
            simulated_results(evaluations)[i],
        ) == simulated_result(evaluations[i], "unknown:Unknown"@, "*"@),
{
    lemma_simulated_results(evaluations);
    if simulated_results(evaluations).len() == evaluations.len() {
        assert forall|k: int| 0 <= k < evaluations.len() implies text_member(
            #[trigger] evaluations[k],
            "EvalDecision"@,
        ) is Some by {
            assert(simulated_result(evaluations[k], "unknown:Unknown"@, "*"@) is Some);
        }
    }
}

/// Of several evaluations of the one request that was simulated the first counts.
pub proof fn law_the_first_evaluation_counts(value: Json, action: Seq<char>, resource: Seq<char>)
    ensures
        ({
            let evaluations = items_of(member(value, "EvaluationResults"@));
            let result = single_simulation(value, action, resource);
            &&& result is Some <==> evaluations.len() > 0 && text_member(
                evaluations[0],
                "EvalDecision"@,
            ) is Some
            &&& result matches Some(told) ==> {
                &&& told.decision == decision_of(
                    text_member(evaluations[0], "EvalDecision"@).unwrap(),
                )
                &&& Some(told) == simulated_result(evaluations[0], action, resource)
            }
        }),
{
}

} // verus!
