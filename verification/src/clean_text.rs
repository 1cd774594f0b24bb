//! The texts that people read hold nothing that can steer a terminal, where the
//! reports that they tell hold nothing of the kind.
use vstd::prelude::*;

use crate::model::{
    identity_is_clean, list_is_clean, permission_report_is_clean, remediation_is_clean,
    report_is_clean, result_is_clean, AuthorizationView, ErrorView, IdentityView,
    PermissionReportView, RemediationView, ReportView, ValidationView,
};
use crate::output::{
    advice_text, caller_line, cause_note, cause_text, check_text, concise_results, concise_text,
    count_of, denial_heading, error_line, evidence_text, handoff_text, human_text, identity_text,
    indented, matrix, matrix_entry, part, permission_text, principal_text, remediation_at,
    request_handoff, request_text, section, validation_text, verbose_advice, verbose_heading,
    verbose_results, verbose_text, Standing,
};
use crate::phrases::{lemma_cause_label_is_clean, lemma_text_phrases};
use crate::redaction::{is_printable, lemma_no_controls_in_both, no_controls};
use crate::text::{decimal, index_of, joined, lemma_index_of, lines_of, without_return};

verus! {

broadcast use lemma_no_controls_in_both;

proof fn lemma_decimal_is_clean(n: nat)
    ensures
        no_controls(decimal(n)),
    decreases n,
{
    if n >= 10 {
        lemma_decimal_is_clean(n / 10);
    }
    assert forall|i: int| 0 <= i < decimal(n).len() implies is_printable(
        #[trigger] decimal(n)[i],
    ) by {
        if n >= 10 && i < decimal(n / 10).len() {
            assert(decimal(n)[i] == decimal(n / 10)[i]);
        }
    }
}

proof fn lemma_joined_is_clean(parts: Seq<Seq<char>>, separator: Seq<char>)
    requires
        list_is_clean(parts),
        no_controls(separator),
    ensures
        no_controls(joined(parts, separator)),
    decreases parts.len(),
{
    if parts.len() > 1 {
        assert(list_is_clean(parts.drop_last()));
        lemma_joined_is_clean(parts.drop_last(), separator);
        assert(no_controls(parts[parts.len() - 1]));
    }
}

proof fn lemma_lines_are_clean(text: Seq<char>)
    requires
        no_controls(text),
    ensures
        list_is_clean(lines_of(text)),
    decreases text.len(),
{
    if text.len() > 0 {
        lemma_index_of(text, '\n', 0);
        let end = index_of(text, '\n', 0);
        if end < text.len() {
            let line = text.take(end);
            let rest = text.skip(end + 1);
            assert forall|i: int| 0 <= i < rest.len() implies is_printable(#[trigger] rest[i]) by {
                assert(rest[i] == text[end + 1 + i]);
            }
            lemma_lines_are_clean(rest);
            assert forall|i: int| 0 <= i < without_return(line).len() implies is_printable(
                #[trigger] without_return(line)[i],
            ) by {
                assert(without_return(line)[i] == text[i]);
            }
            let all = lines_of(text);
            assert forall|i: int| 0 <= i < all.len() implies no_controls(#[trigger] all[i]) by {
                if i > 0 {
                    assert(all[i] == lines_of(rest)[i - 1]);
                }
            }
        }
    }
}

proof fn lemma_indented_is_clean(list: Seq<Seq<char>>, indent: Seq<char>)
    requires
        list_is_clean(list),
        no_controls(indent),
    ensures
        no_controls(indented(list, indent)),
    decreases list.len(),
{
    lemma_text_phrases();
    if list.len() > 0 {
        assert(list_is_clean(list.drop_last()));
        lemma_indented_is_clean(list.drop_last(), indent);
        assert(no_controls(list[list.len() - 1]));
    }
}

proof fn lemma_section_is_clean(heading: Seq<char>, list: Seq<Seq<char>>)
    requires
        no_controls(heading),
        list_is_clean(list),
    ensures
        no_controls(section(heading, list)),
{
    lemma_text_phrases();
    lemma_indented_is_clean(list, "  "@);
}

/// Nothing in the error of a report can steer a terminal.
pub open spec fn error_is_clean(error: Option<ErrorView>) -> bool {
    error is Some ==> no_controls(error.unwrap().code) && no_controls(error.unwrap().message)
}

proof fn lemma_error_line_is_clean(error: Option<ErrorView>)
    requires
        error_is_clean(error),
    ensures
        no_controls(error_line(error)),
{
    lemma_text_phrases();
}

proof fn lemma_principal_is_clean(identity: IdentityView)
    requires
        identity_is_clean(identity),
    ensures
        no_controls(identity.principal_arn()),
        no_controls(identity.display_name()),
{
    lemma_text_phrases();
}

proof fn lemma_caller_line_is_clean(front: Seq<char>, identity: Option<IdentityView>)
    requires
        no_controls(front),
        identity is Some ==> identity_is_clean(identity.unwrap()),
    ensures
        no_controls(caller_line(front, identity)),
{
    lemma_text_phrases();
    if let Some(who) = identity {
        lemma_principal_is_clean(who);
    }
}

proof fn lemma_identity_text_is_clean(identity: IdentityView)
    requires
        identity_is_clean(identity),
    ensures
        no_controls(identity_text(identity)),
{
    lemma_text_phrases();
    lemma_principal_is_clean(identity);
}

proof fn lemma_cause_text_is_clean(heading: Seq<char>, result: AuthorizationView)
    requires
        no_controls(heading),
        result_is_clean(result),
    ensures
        no_controls(cause_text(heading, result)),
{
    lemma_text_phrases();
    if let Some(cause) = result.cause {
        lemma_cause_label_is_clean(cause);
    }
}

proof fn lemma_validation_text_is_clean(validation: Option<ValidationView>)
    requires
        validation is Some ==> no_controls(validation.unwrap().detail),
    ensures
        no_controls(validation_text(validation)),
{
    lemma_text_phrases();
}

/// Nothing in the results can steer a terminal.
pub open spec fn results_are_clean(results: Seq<AuthorizationView>) -> bool {
    forall|i: int| 0 <= i < results.len() ==> result_is_clean(#[trigger] results[i])
}

proof fn lemma_request_text_is_clean(results: Seq<AuthorizationView>, index: int)
    requires
        results_are_clean(results),
        0 <= index < results.len(),
    ensures
        no_controls(request_text(results, index)),
        no_controls(check_text(results, index)),
{
    lemma_text_phrases();
    lemma_decimal_is_clean((index + 1) as nat);
    assert(result_is_clean(results[index]));
}

proof fn lemma_handoff_is_clean(
    identity: Option<IdentityView>,
    result: AuthorizationView,
    policy: Seq<char>,
)
    requires
        identity is Some ==> identity_is_clean(identity.unwrap()),
        result_is_clean(result),
        no_controls(policy),
    ensures
        no_controls(handoff_text(identity, result, policy)),
{
    lemma_text_phrases();
    lemma_caller_line_is_clean("  Principal: "@, identity);
    lemma_lines_are_clean(policy);
    lemma_indented_is_clean(lines_of(policy), "    "@);
}

proof fn lemma_remediation_at(
    remediations: Seq<RemediationView>,
    action: Option<Seq<char>>,
    resource: Option<Seq<char>>,
    from: int,
)
    requires
        0 <= from,
    ensures
        0 <= remediation_at(remediations, action, resource, from),
    decreases remediations.len() - from,
{
    if from < remediations.len() {
        lemma_remediation_at(remediations, action, resource, from + 1);
    }
}

proof fn lemma_advice_is_clean(
    report: ReportView,
    policies: Seq<Seq<char>>,
    result: AuthorizationView,
)
    requires
        report_is_clean(report),
        list_is_clean(policies),
        policies.len() == report.remediation.len(),
        result_is_clean(result),
    ensures
        no_controls(advice_text(report, policies, result)),
{
    lemma_text_phrases();
    let at = remediation_at(report.remediation, result.action, result.resource, 0);
    lemma_remediation_at(report.remediation, result.action, result.resource, 0);
    if at < report.remediation.len() {
        let item = report.remediation[at];
        assert(remediation_is_clean(item));
        assert(no_controls(policies[at]));
        lemma_handoff_is_clean(report.identity, result, policies[at]);
        lemma_validation_text_is_clean(item.policy_validation);
    }
}

proof fn lemma_concise_results_are_clean(
    report: ReportView,
    policies: Seq<Seq<char>>,
    count: nat,
)
    requires
        report_is_clean(report),
        list_is_clean(policies),
        policies.len() == report.remediation.len(),
        count <= report.authorization.len(),
    ensures
        no_controls(concise_results(report, policies, count)),
    decreases count,
{
    lemma_text_phrases();
    if count > 0 {
        let index = count - 1;
        let result = report.authorization[index];
        assert(result_is_clean(result));
        lemma_concise_results_are_clean(report, policies, index as nat);
        lemma_request_text_is_clean(report.authorization, index);
        lemma_cause_text_is_clean("Reason"@, result);
        lemma_advice_is_clean(report, policies, result);
    }
}

proof fn lemma_concise_text_is_clean(report: ReportView, policies: Seq<Seq<char>>)
    requires
        report_is_clean(report),
        list_is_clean(policies),
        policies.len() == report.remediation.len(),
    ensures
        no_controls(concise_text(report, policies)),
{
    lemma_text_phrases();
    lemma_section_is_clean("Important"@, report.notes);
    lemma_error_line_is_clean(report.error);
    lemma_decimal_is_clean(report.authorization.len());
    if report.authorization.len() > 0 {
        assert(result_is_clean(report.authorization[0]));
        assert(no_controls(denial_heading(report.authorization)));
        if let Some(who) = report.identity {
            lemma_principal_is_clean(who);
        }
        assert(no_controls(principal_text(report)));
        lemma_concise_results_are_clean(report, policies, report.authorization.len());
    }
}

proof fn lemma_verbose_results_are_clean(results: Seq<AuthorizationView>, count: nat)
    requires
        results_are_clean(results),
        count <= results.len(),
    ensures
        no_controls(verbose_results(results, count)),
    decreases count,
{
    lemma_text_phrases();
    if count > 0 {
        let index = count - 1;
        let result = results[index];
        assert(result_is_clean(result));
        lemma_verbose_results_are_clean(results, index as nat);
        lemma_request_text_is_clean(results, index);
        lemma_cause_text_is_clean("Cause"@, result);
        lemma_section_is_clean("Could not verify runtime context"@, result.missing_context);
        assert(no_controls(evidence_text(result)));
    }
}

proof fn lemma_verbose_advice_is_clean(report: ReportView, policies: Seq<Seq<char>>, count: nat)
    requires
        report_is_clean(report),
        list_is_clean(policies),
        policies.len() == report.remediation.len(),
        count <= report.remediation.len(),
    ensures
        no_controls(verbose_advice(report, policies, count)),
    decreases count,
{
    lemma_text_phrases();
    if count > 0 {
        let index = count - 1;
        let item = report.remediation[index];
        assert(remediation_is_clean(item));
        assert(no_controls(policies[index]));
        lemma_verbose_advice_is_clean(report, policies, index as nat);
        lemma_caller_line_is_clean("  principal: "@, report.identity);
        assert(no_controls(request_handoff(report.identity, item)));
        lemma_lines_are_clean(policies[index]);
        lemma_indented_is_clean(lines_of(policies[index]), "  "@);
        lemma_validation_text_is_clean(item.policy_validation);
    }
}

proof fn lemma_verbose_text_is_clean(report: ReportView, policies: Seq<Seq<char>>)
    requires
        report_is_clean(report),
        list_is_clean(policies),
        policies.len() == report.remediation.len(),
    ensures
        no_controls(verbose_text(report, policies)),
{
    lemma_text_phrases();
    if report.authorization.len() > 0 {
        assert(result_is_clean(report.authorization[0]));
    }
    assert(no_controls(verbose_heading(report.authorization)));
    if let Some(who) = report.identity {
        lemma_identity_text_is_clean(who);
    }
    lemma_verbose_results_are_clean(report.authorization, report.authorization.len());
    lemma_error_line_is_clean(report.error);
    assert(no_controls(part("Credential source\n  "@, report.credential_source, "\n\n"@)));
    lemma_verbose_advice_is_clean(report, policies, report.remediation.len());
    lemma_section_is_clean("Notes"@, report.notes);
}

/// The text of a report that cannot steer a terminal cannot do so either, short or
/// long, where the candidate policies as JSON texts cannot.
pub proof fn law_texts_for_people_are_clean(
    report: ReportView,
    verbose: bool,
    policies: Seq<Seq<char>>,
    expired: bool,
)
    requires
        report_is_clean(report),
        list_is_clean(policies),
        policies.len() == report.remediation.len(),
    ensures
        no_controls(human_text(report, verbose, policies, expired)),
{
    lemma_text_phrases();
    lemma_error_line_is_clean(report.error);
    lemma_concise_text_is_clean(report, policies);
    lemma_verbose_text_is_clean(report, policies);
}

proof fn lemma_matrix_entry_is_clean(result: AuthorizationView)
    requires
        result_is_clean(result),
    ensures
        no_controls(matrix_entry(result)),
{
    lemma_text_phrases();
    if let Some(cause) = result.cause {
        lemma_cause_label_is_clean(cause);
    }
    assert(no_controls(cause_note(result.cause)));
    lemma_joined_is_clean(result.missing_context, ", "@);
}

proof fn lemma_matrix_is_clean(results: Seq<AuthorizationView>, count: nat)
    requires
        results_are_clean(results),
        count <= results.len(),
    ensures
        no_controls(matrix(results, count)),
    decreases count,
{
    lemma_text_phrases();
    if count > 0 {
        let index = count - 1;
        assert(result_is_clean(results[index]));
        lemma_matrix_is_clean(results, index as nat);
        lemma_matrix_entry_is_clean(results[index]);
    }
}

/// The text of a permission report that cannot steer a terminal cannot do so
/// either.
pub proof fn law_permission_texts_are_clean(report: PermissionReportView)
    requires
        permission_report_is_clean(report),
    ensures
        no_controls(permission_text(report)),
{
    lemma_text_phrases();
    lemma_identity_text_is_clean(report.identity);
    lemma_matrix_is_clean(report.authorization, report.authorization.len());
    lemma_decimal_is_clean(count_of(report.authorization, Standing::Allowed));
    lemma_decimal_is_clean(count_of(report.authorization, Standing::Denied));
    lemma_decimal_is_clean(count_of(report.authorization, Standing::Unknown));
    lemma_indented_is_clean(report.notes, "Note: "@);
}

} // verus!
