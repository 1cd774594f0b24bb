//! What the commands `run`, `can` and `permissions` decide.
use vstd::prelude::*;

use crate::context::AwsCommandContext;
use crate::diagnosis::outcome;
use crate::evaluations::law_words_tell_decisions;
use crate::json::{items_of, member, text_member, Json};
use crate::model::{
    identity_of_arn, law_shown_results_are_the_same, permission_report, views, AuthorizationResult,
    AuthorizationView, AwsIdentity, Decision, FailureKind, IdentityView, PermissionReport,
    PermissionReportView,
};
use crate::permissions::{
    fetch_service_actions, law_normalized_actions, law_normalized_services,
    law_service_actions_are_sorted, list_outcome, listed_actions, normalize_action,
    normalize_resources, normalize_service, normalized_action, normalized_resources,
    normalized_service, service_actions, ReferenceView, ServiceReference,
};
use crate::redaction::sanitized;
use crate::runner::{failure_exit_code, CommandRun};
use crate::simulation::{
    batch_results, law_batches_are_answered_in_full, simulate_permissions, simulation_start,
    PermissionSimulation, SimulationView,
};
use crate::sorting::{is_ordering_of, lemma_ordered, ordered, sorted_unique};
use crate::text::{
    ascii_lower, law_text_falls_apart_at_the_first, lemma_texts_push, opt_text, split_first,
    split_once, texts, without_char,
};

verus! {

/// The exit code of a command that could not be executed.
pub const NOT_EXECUTED: u8 = 126;

/// The exit code where a simulation could not be made.
pub const NOT_SIMULATED: u8 = 2;

/// What every permission report notes.
pub const SIMULATION_LIMITS: &'static str =
    "Resource policies are not fetched, and live request context, role session policies, VPC endpoint policies, and resource control policies may change the real result.";

/// What a permission report notes whose actions are those that AWS lists.
pub const CATALOG_SOURCE: &'static str =
    "Action names came from AWS's current public Service Authorization Reference.";

/// What is to be simulated.
#[derive(Debug)]
pub struct SimulationRequest {
    pub actions: Vec<String>,
    pub resources: Vec<String>,
    pub service: Option<String>,
    pub fetched_catalog: bool,
}

pub struct RequestView {
    pub actions: Seq<Seq<char>>,
    pub resources: Seq<Seq<char>>,
    pub service: Option<Seq<char>>,
    pub fetched_catalog: bool,
}

impl View for SimulationRequest {
    type V = RequestView;

    open spec fn view(&self) -> RequestView {
        RequestView {
            actions: texts(self.actions@),
            resources: texts(self.resources@),
            service: opt_text(self.service),
            fetched_catalog: self.fetched_catalog,
        }
    }
}

/// What `can` simulates: one action, on each of the resources.
pub open spec fn can_requested(action: Seq<char>, resources: Seq<Seq<char>>) -> Result<
    RequestView,
    Seq<char>,
> {
    match normalized_action(action, None) {
        Err(error) => Err(error),
        Ok(full) => match normalized_resources(resources) {
            Err(error) => Err(error),
            Ok(list) => Ok(
                RequestView {
                    actions: seq![full],
                    resources: list,
                    service: match split_first(full, ':') {
                        Some((service, _)) => Some(service),
                        None => None,
                    },
                    fetched_catalog: false,
                },
            ),
        },
    }
}

/// What `can` simulates.
pub fn can_request(action: &str, resources: Vec<String>) -> (r: Result<SimulationRequest, String>)
    ensures
        outcome(r) == can_requested(action@, texts(resources@)),
{
    broadcast use lemma_texts_push;

    let full = match normalize_action(action, None) {
        Ok(full) => full,
        Err(error) => {
            return Err(error);
        },
    };
    let service = match split_once(full.as_str(), ':') {
        Some((service, _)) => Some(service),
        None => None,
    };
    let resources = match normalize_resources(resources) {
        Ok(resources) => resources,
        Err(error) => {
            return Err(error);
        },
    };
    let mut actions: Vec<String> = Vec::new();
    let ghost name = full@;
    actions.push(full);
    assert(texts(actions@) =~= seq![name]);
    Ok(SimulationRequest { actions, resources, service, fetched_catalog: false })
}

/// The actions that a user named for a service, or why the first that is refused
/// is.
pub open spec fn named_actions(actions: Seq<Seq<char>>, service: Seq<char>) -> Result<
    Seq<Seq<char>>,
    Seq<char>,
>
    decreases actions.len(),
{
    if actions.len() == 0 {
        Ok(Seq::empty())
    } else {
        match named_actions(actions.drop_last(), service) {
            Err(error) => Err(error),
            Ok(front) => match normalized_action(actions.last(), Some(service)) {
                Err(error) => Err(error),
                Ok(action) => Ok(front.push(action)),
            },
        }
    }
}

proof fn lemma_refused_action(actions: Seq<Seq<char>>, service: Seq<char>, count: int)
    requires
        0 <= count <= actions.len(),
        named_actions(actions.take(count), service) is Err,
    ensures
        named_actions(actions, service) == named_actions(actions.take(count), service),
    decreases actions.len(),
{
    if count < actions.len() {
        assert(actions.drop_last().take(count) =~= actions.take(count));
        lemma_refused_action(actions.drop_last(), service, count);
    } else {
        assert(actions.take(count) =~= actions);
    }
}

/// What comes next in settling what `permissions` simulates: the part of the
/// reference to fetch, or the end.
#[derive(Debug)]
pub enum RequestStep {
    NeedReference(String),
    Done(Result<SimulationRequest, String>),
}

pub enum RequestStepView {
    NeedReference(Seq<char>),
    Done(Result<RequestView, Seq<char>>),
}

impl View for RequestStep {
    type V = RequestStepView;

    open spec fn view(&self) -> RequestStepView {
        match self {
            RequestStep::NeedReference(service) => RequestStepView::NeedReference(service@),
            RequestStep::Done(result) => RequestStepView::Done(outcome(*result)),
        }
    }
}

/// What is simulated of the actions on the resources.
pub open spec fn matrix_request(
    actions: Result<Seq<Seq<char>>, Seq<char>>,
    resources: Seq<Seq<char>>,
    service: Seq<char>,
    fetched_catalog: bool,
) -> Result<RequestView, Seq<char>> {
    match actions {
        Err(error) => Err(error),
        Ok(list) => match normalized_resources(resources) {
            Err(error) => Err(error),
            Ok(named) => Ok(
                RequestView {
                    actions: list,
                    resources: named,
                    service: Some(service),
                    fetched_catalog,
                },
            ),
        },
    }
}

/// What `permissions` simulates: the named actions of a service in order, each
/// once, or all that AWS lists where none is named, on each of the resources. The
/// reference is needed only where no action is named.
pub open spec fn permissions_requested(
    service: Seq<char>,
    actions: Seq<Seq<char>>,
    resources: Seq<Seq<char>>,
    fetched: Option<Result<ReferenceView, Seq<char>>>,
) -> RequestStepView {
    match normalized_service(service) {
        Err(error) => RequestStepView::Done(Err(error)),
        Ok(name) => if actions.len() == 0 {
            match fetched {
                None => RequestStepView::NeedReference(name),
                Some(reference) => RequestStepView::Done(
                    matrix_request(service_actions(name, reference), resources, name, true),
                ),
            }
        } else {
            RequestStepView::Done(
                matrix_request(
                    match named_actions(actions, name) {
                        Ok(list) => Ok(ordered(list)),
                        Err(error) => Err(error),
                    },
                    resources,
                    name,
                    false,
                ),
            )
        },
    }
}

fn normalize_actions(actions: &Vec<String>, service: &str) -> (r: Result<Vec<String>, String>)
    ensures
        list_outcome(r) == match named_actions(texts(actions@), service@) {
            Ok(list) => Ok::<Seq<Seq<char>>, Seq<char>>(ordered(list)),
            Err(error) => Err(error),
        },
{
    let ghost all = texts(actions@);
    let mut named: Vec<String> = Vec::new();
    assert(texts(named@) =~= Seq::<Seq<char>>::empty());
    let mut i: usize = 0;
    while i < actions.len()
        invariant
            i <= actions@.len(),
            all == texts(actions@),
            named_actions(all.take(i as int), service@) == Ok::<Seq<Seq<char>>, Seq<char>>(
                texts(named@),
            ),
        decreases actions.len() - i,
    {
        broadcast use lemma_texts_push;

        assert(all.take(i + 1).drop_last() =~= all.take(i as int));
        assert(all.take(i + 1).last() == actions@[i as int]@);
        match normalize_action(actions[i].as_str(), Some(service)) {
            Ok(action) => {
                named.push(action);
            },
            Err(error) => {
                proof {
                    lemma_refused_action(all, service@, i + 1);
                }
                return Err(error);
            },
        }
        i += 1;
    }
    assert(all.take(i as int) =~= all);
    Ok(sorted_unique(&named))
}

/// The view of what was fetched, where something was asked for.
pub open spec fn opt_outcome<T: View>(value: Option<Result<T, String>>) -> Option<
    Result<T::V, Seq<char>>,
> {
    match value {
        Some(result) => Some(outcome(result)),
        None => None,
    }
}

/// What `permissions` simulates. `fetched` is what became of the part of the
/// reference that was asked for, where it was.
pub fn permissions_request(
    service: &str,
    actions: &Vec<String>,
    resources: Vec<String>,
    fetched: &Option<Result<ServiceReference, String>>,
) -> (r: RequestStep)
    ensures
        r@ == permissions_requested(
            service@,
            texts(actions@),
            texts(resources@),
            opt_outcome(*fetched),
        ),
{
    let name = match normalize_service(service) {
        Ok(name) => name,
        Err(error) => {
            return RequestStep::Done(Err(error));
        },
    };
    let fetched_catalog = actions.len() == 0;
    let listed = if fetched_catalog {
        match fetched {
            None => {
                return RequestStep::NeedReference(name);
            },
            Some(reference) => fetch_service_actions(name.as_str(), reference),
        }
    } else {
        normalize_actions(actions, name.as_str())
    };
    let actions = match listed {
        Ok(list) => list,
        Err(error) => {
            return RequestStep::Done(Err(error));
        },
    };
    RequestStep::Done(
        match normalize_resources(resources) {
            Ok(resources) => Ok(
                SimulationRequest { actions, resources, service: Some(name), fetched_catalog },
            ),
            Err(error) => Err(error),
        },
    )
}

/// The user or role that a user named in place of the caller.
pub open spec fn named_principal(principal: Seq<char>) -> Result<IdentityView, Seq<char>> {
    match identity_of_arn(principal) {
        None => Err("--principal must be an IAM user or role ARN."@),
        Some(identity) => if identity.policy_source_arn() is Some {
            Ok(identity)
        } else {
            Err("--principal must identify an IAM user or role."@)
        },
    }
}

/// The user or role that a user named in place of the caller.
pub fn principal_identity(principal: &str) -> (r: Result<AwsIdentity, String>)
    ensures
        outcome(r) == named_principal(principal@),
{
    match AwsIdentity::from_arn(principal) {
        None => Err("--principal must be an IAM user or role ARN.".to_owned()),
        Some(identity) => {
            if identity.policy_source_arn().is_some() {
                Ok(identity)
            } else {
                Err("--principal must identify an IAM user or role.".to_owned())
            }
        },
    }
}

/// The user or role whose policies are simulated.
pub open spec fn simulated_source(identity: IdentityView) -> Result<Seq<char>, Seq<char>> {
    match identity.policy_source_arn() {
        Some(source) => Ok(source),
        None => Err("The current identity cannot be mapped to an IAM user or role."@),
    }
}

fn simulation_source(identity: &AwsIdentity) -> (r: Result<String, String>)
    ensures
        outcome(r) == simulated_source(identity@),
{
    match identity.policy_source_arn() {
        Some(source) => Ok(source),
        None => Err("The current identity cannot be mapped to an IAM user or role.".to_owned()),
    }
}

/// Starts the simulation of a request for an identity.
pub fn start_simulation(
    context: &AwsCommandContext,
    identity: &AwsIdentity,
    request: &SimulationRequest,
) -> (r: Result<PermissionSimulation, String>)
    ensures
        outcome(r) == match simulated_source(identity@) {
            Err(error) => Err::<SimulationView, Seq<char>>(error),
            Ok(_) => simulation_start(
                context@,
                identity@,
                request@.actions,
                request@.resources,
            ),
        },
{
    if let Err(error) = simulation_source(identity) {
        return Err(error);
    }
    simulate_permissions(context, identity, &request.actions, &request.resources)
}

/// What a permission report notes.
pub open spec fn report_notes(fetched_catalog: bool) -> Seq<Seq<char>> {
    if fetched_catalog {
        seq![SIMULATION_LIMITS@, CATALOG_SOURCE@]
    } else {
        seq![SIMULATION_LIMITS@]
    }
}

/// The report on a simulation that was made.
pub open spec fn simulated_report(
    identity: IdentityView,
    request: RequestView,
    results: Seq<AuthorizationView>,
) -> Result<PermissionReportView, Seq<char>> {
    match simulated_source(identity) {
        Err(error) => Err(error),
        Ok(source) => Ok(
            permission_report(
                identity,
                source,
                request.service,
                results,
                report_notes(request.fetched_catalog),
            ),
        ),
    }
}

/// The report on a simulation that was made.
pub fn simulate_report(
    identity: AwsIdentity,
    request: SimulationRequest,
    authorization: Vec<AuthorizationResult>,
) -> (r: Result<PermissionReport, String>)
    ensures
        outcome(r) == simulated_report(identity@, request@, views(authorization@)),
{
    broadcast use lemma_texts_push;

    let source = match simulation_source(&identity) {
        Ok(source) => source,
        Err(error) => {
            return Err(error);
        },
    };
    let mut notes: Vec<String> = Vec::new();
    notes.push(SIMULATION_LIMITS.to_owned());
    if request.fetched_catalog {
        notes.push(CATALOG_SOURCE.to_owned());
    }
    assert(texts(notes@) =~= report_notes(request.fetched_catalog));
    Ok(PermissionReport::new(identity, source, request.service, authorization, notes))
}

/// Every result is allowed.
pub open spec fn all_allowed(results: Seq<AuthorizationView>) -> bool {
    forall|i: int| 0 <= i < results.len() ==> (#[trigger] results[i]).decision == Decision::Allowed
}

/// The exit code of `can`: 0 where every simulated result is allowed, 3 where any
/// is denied or unknown, 2 where there is no report.
pub fn can_exit_code(report: &Result<PermissionReport, String>) -> (r: u8)
    ensures
        r == match report {
            Ok(made) => if all_allowed(made@.authorization) {
                0u8
            } else {
                3u8
            },
            Err(_) => NOT_SIMULATED,
        },
        r == 0 <==> (report matches Ok(made) && forall|i: int|
            0 <= i < made@.authorization.len() ==> (#[trigger] made@.authorization[i]).decision
                == Decision::Allowed),
        r == 3 <==> (report matches Ok(made) && exists|i: int|
            0 <= i < made@.authorization.len() && (#[trigger] made@.authorization[i]).decision
                != Decision::Allowed),
        r == 2 <==> report is Err,
{
    let made = match report {
        Ok(made) => made,
        Err(_) => {
            return NOT_SIMULATED;
        },
    };
    let ghost all = made@.authorization;
    let mut i: usize = 0;
    while i < made.authorization.len()
        invariant
            i <= made.authorization@.len(),
            all == made@.authorization,
            all == views(made.authorization@),
            *report == Ok::<PermissionReport, String>(*made),
            forall|k: int| 0 <= k < i ==> (#[trigger] all[k]).decision == Decision::Allowed,
        decreases made.authorization.len() - i,
    {
        assert(all[i as int] == made.authorization@[i as int]@);
        if made.authorization[i].decision != Decision::Allowed {
            return 3;
        }
        i += 1;
    }
    0
}

/// The exit code of `permissions`: 0 where there is a report, whatever was decided,
/// and 2 where there is none.
pub fn permissions_exit_code(report: &Result<PermissionReport, String>) -> (r: u8)
    ensures
        r == match report {
            Ok(_) => 0u8,
            Err(_) => NOT_SIMULATED,
        },
        r == 0 <==> report is Ok,
        r == 2 <==> report is Err,
{
    match report {
        Ok(_) => 0,
        Err(_) => NOT_SIMULATED,
    }
}

/// The exit code of `run`: that of the command, as far as it fits. One that does
/// not fit stays one of a failure.
pub fn run_exit_code(exit_code: i32) -> (r: u8)
    ensures
        0 <= exit_code <= 255 ==> r == exit_code,
        exit_code < 0 ==> r == 1,
        exit_code > 255 ==> r == 255,
{
    if exit_code == 0 {
        0
    } else {
        failure_exit_code(exit_code)
    }
}

/// Whether the error stream of a failed command is shown again, in front of the
/// diagnostic: not beside JSON, and not where the diagnostic stands for it.
pub fn replays_stderr(json: bool, kind: FailureKind) -> (r: bool)
    ensures
        r == (!json && kind != FailureKind::Authorization),
{
    !json && kind != FailureKind::Authorization
}

/// What is said of output that could not be shown again.
pub open spec fn replay_warnings(stdout_truncated: bool, stderr_truncated: bool) -> Seq<Seq<char>> {
    let first = if stdout_truncated {
        seq![
            "aws-why: command stdout exceeded the 64 MiB --json replay limit and was truncated"@,
        ]
    } else {
        Seq::empty()
    };
    if stderr_truncated {
        first.push("aws-why: command stderr exceeded the 8 MiB replay limit and was truncated"@)
    } else {
        first
    }
}

/// What is said of output of a command that could not be shown again.
pub fn warn_if_truncated(run: &CommandRun) -> (r: Vec<String>)
    ensures
        texts(r@) == replay_warnings(run.stdout_truncated, run.stderr_replay_truncated),
{
    broadcast use lemma_texts_push;

    let mut warnings: Vec<String> = Vec::new();
    assert(texts(warnings@) =~= Seq::<Seq<char>>::empty());
    if run.stdout_truncated {
        warnings.push(
            "aws-why: command stdout exceeded the 64 MiB --json replay limit and was truncated".to_owned(),
        );
        assert(texts(warnings@) =~= replay_warnings(true, false));
    }
    if run.stderr_replay_truncated {
        warnings.push(
            "aws-why: command stderr exceeded the 8 MiB replay limit and was truncated".to_owned(),
        );
    }
    warnings
}

/// Passing an action skips the catalog: the reference is needed just where the
/// service is one and no action is named.
pub proof fn law_catalog_is_fetched_for_whole_services(
    service: Seq<char>,
    actions: Seq<Seq<char>>,
    resources: Seq<Seq<char>>,
    fetched: Result<ReferenceView, Seq<char>>,
)
    ensures
        permissions_requested(service, actions, resources, None) is NeedReference <==> (
        normalized_service(service) is Ok && actions.len() == 0),
        permissions_requested(service, actions, resources, Some(fetched)) is Done,
        permissions_requested(service, actions, resources, Some(fetched)) matches
            RequestStepView::Done(Ok(request)) ==> request.fetched_catalog == (actions.len() == 0),
{
}

/// The actions that `permissions` simulates stand in order, each once: those that
/// were named, or all that AWS lists where none was.
pub proof fn law_requested_actions_are_sorted(
    service: Seq<char>,
    actions: Seq<Seq<char>>,
    resources: Seq<Seq<char>>,
    fetched: Option<Result<ReferenceView, Seq<char>>>,
)
    ensures
        permissions_requested(service, actions, resources, fetched) matches RequestStepView::Done(
            Ok(request),
        ) ==> is_ordering_of(
            request.actions,
            if actions.len() > 0 {
                named_actions(actions, ascii_lower(service))->Ok_0
            } else {
                listed_actions(fetched.unwrap()->Ok_0, ascii_lower(service))
            },
        ),
{
    if let RequestStepView::Done(Ok(request)) = permissions_requested(
        service,
        actions,
        resources,
        fetched,
    ) {
        let name = ascii_lower(service);
        law_normalized_services(service);
        if actions.len() > 0 {
            lemma_ordered(named_actions(actions, name)->Ok_0);
        } else {
            law_service_actions_are_sorted(name, fetched.unwrap());
        }
    }
}

/// `can` simulates the one action that is named, on the resources that are, and for the
/// service that stands in front of the action.
pub proof fn law_can_asks_for_one_action(action: Seq<char>, resources: Seq<Seq<char>>)
    ensures
        can_requested(action, resources) is Ok <==> normalized_action(action, None) is Ok
            && normalized_resources(resources) is Ok,
        can_requested(action, resources) matches Ok(request) ==> {
            &&& request.actions.len() == 1
            &&& Ok::<Seq<char>, Seq<char>>(request.actions[0]) == normalized_action(action, None)
            &&& Ok::<Seq<Seq<char>>, Seq<char>>(request.resources) == normalized_resources(
                resources,
            )
            &&& request.service matches Some(service) && !service.contains(':') && exists|
                name: Seq<char>,
            |
                request.actions[0] == #[trigger] (service + seq![':'] + name)
            &&& !request.fetched_catalog
        },
{
    if let Ok(request) = can_requested(action, resources) {
        let full = request.actions[0];
        law_normalized_actions(action, None);
        law_text_falls_apart_at_the_first(full, ':');
        let (service, name) = split_first(full, ':').unwrap();
        assert(full == service + seq![':'] + name);
    }
}

proof fn lemma_named_actions(actions: Seq<Seq<char>>, service: Seq<char>)
    ensures
        match named_actions(actions, service) {
            Ok(list) => list.len() == actions.len() && forall|i: int|
                0 <= i < actions.len() ==> normalized_action(#[trigger] actions[i], Some(service))
                    == Ok::<Seq<char>, Seq<char>>(list[i]),
            Err(error) => exists|i: int|
                0 <= i < actions.len() && normalized_action(#[trigger] actions[i], Some(service))
                    == Err::<Seq<char>, Seq<char>>(error) && forall|k: int|
                    0 <= k < i ==> normalized_action(#[trigger] actions[k], Some(service)) is Ok,
        },
    decreases actions.len(),
{
    if actions.len() > 0 {
        let front = actions.drop_last();
        lemma_named_actions(front, service);
        assert(forall|i: int| 0 <= i < front.len() ==> front[i] == actions[i]);
        match named_actions(front, service) {
            Err(error) => {
                let i = choose|i: int|
                    0 <= i < front.len() && normalized_action(#[trigger] front[i], Some(service))
                        == Err::<Seq<char>, Seq<char>>(error) && forall|k: int|
                        0 <= k < i ==> normalized_action(#[trigger] front[k], Some(service)) is Ok;
                assert(normalized_action(actions[i], Some(service)) == Err::<Seq<char>, Seq<char>>(
                    error,
                ));
                assert forall|k: int| 0 <= k < i implies normalized_action(
                    #[trigger] actions[k],
                    Some(service),
                ) is Ok by {
                    assert(normalized_action(front[k], Some(service)) is Ok);
                }
            },
            Ok(list) => {
                assert forall|k: int| 0 <= k < front.len() implies normalized_action(
                    #[trigger] actions[k],
                    Some(service),
                ) == Ok::<Seq<char>, Seq<char>>(list[k]) by {
                    assert(normalized_action(front[k], Some(service)) is Ok);
                }
                assert(actions[actions.len() - 1] == actions.last());
            },
        }
    }
}

/// `permissions` simulates an action just where it is named for the service, or listed
/// by AWS where none is named; one name that is refused refuses them all, and the first
/// such one is told.
pub proof fn law_permissions_asks_for_the_named_actions(
    service: Seq<char>,
    actions: Seq<Seq<char>>,
    resources: Seq<Seq<char>>,
    fetched: Option<Result<ReferenceView, Seq<char>>>,
    i: int,
)
    requires
        0 <= i < actions.len(),
    ensures
        match permissions_requested(service, actions, resources, fetched) {
            RequestStepView::Done(Ok(request)) => {
                &&& normalized_service(service) is Ok
                &&& request.service == Some(ascii_lower(service))
                &&& Ok::<Seq<Seq<char>>, Seq<char>>(request.resources) == normalized_resources(
                    resources,
                )
                &&& normalized_action(actions[i], request.service) matches Ok(action)
                    && request.actions.contains(action)
                &&& forall|action: Seq<char>| #[trigger]
                    request.actions.contains(action) ==> exists|k: int|
                        0 <= k < actions.len() && normalized_action(
                            #[trigger] actions[k],
                            request.service,
                        ) == Ok::<Seq<char>, Seq<char>>(action)
                &&& !request.fetched_catalog
            },
            RequestStepView::Done(Err(error)) => normalized_service(service) is Err
                || normalized_resources(resources) is Err || exists|k: int|
                0 <= k < actions.len() && normalized_action(
                    #[trigger] actions[k],
                    Some(ascii_lower(service)),
                ) == Err::<Seq<char>, Seq<char>>(error),
            RequestStepView::NeedReference(_) => false,
        },
{
    let name = ascii_lower(service);
    lemma_named_actions(actions, name);
    if let Ok(list) = named_actions(actions, name) {
        lemma_ordered(list);
        assert(normalized_action(actions[i], Some(name)) == Ok::<Seq<char>, Seq<char>>(list[i]));
        assert(list.contains(list[i]));
        assert forall|action: Seq<char>| #[trigger] ordered(list).contains(action) implies exists|
            k: int,
        |
            0 <= k < actions.len() && normalized_action(#[trigger] actions[k], Some(name)) == Ok::<
                Seq<char>,
                Seq<char>,
            >(action) by {
            let k = choose|k: int| 0 <= k < list.len() && list[k] == action;
            assert(normalized_action(actions[k], Some(name)) == Ok::<Seq<char>, Seq<char>>(
                list[k],
            ));
        }
    }
}

/// Only a user or a role can be named in place of the caller, or a session of a role.
pub proof fn law_principals_have_policies(principal: Seq<char>)
    ensures
        named_principal(principal) is Ok <==> (identity_of_arn(principal) matches Some(who)
            && who.policy_source_arn() is Some),
        named_principal(principal) matches Ok(who) ==> identity_of_arn(principal) == Some(who),
        identity_of_arn(principal) is None ==> named_principal(principal) == Err::<
            IdentityView,
            Seq<char>,
        >("--principal must be an IAM user or role ARN."@),
{
}

/// The report on a simulation is of the identity and its policy source, holds the result
/// of each simulated pair with the same decision and cause, and notes what a simulation
/// leaves out, and where its actions come from.
pub proof fn law_simulations_are_reported_as_they_are(
    identity: IdentityView,
    request: RequestView,
    results: Seq<AuthorizationView>,
)
    ensures
        simulated_report(identity, request, results) is Ok <==> identity.policy_source_arn()
            is Some,
        simulated_report(identity, request, results) matches Ok(report) ==> {
            &&& report.result == "simulated"@
            &&& report.policy_source_arn == sanitized(identity.policy_source_arn().unwrap())
            &&& report.identity.principal_type == identity.principal_type
            &&& report.authorization.len() == results.len()
            &&& forall|i: int|
                0 <= i < results.len() ==> (#[trigger] report.authorization[i]).decision
                    == results[i].decision && report.authorization[i].cause == results[i].cause
                    && report.authorization[i].confidence == results[i].confidence
                    && report.authorization[i].evidence_source == results[i].evidence_source
            &&& report.notes.len() == if request.fetched_catalog {
                2int
            } else {
                1int
            }
            &&& report.notes[0] == sanitized(
                "Resource policies are not fetched, and live request context, role session policies, VPC endpoint policies, and resource control policies may change the real result."@,
            )
            &&& request.fetched_catalog ==> report.notes[1] == sanitized(
                "Action names came from AWS's current public Service Authorization Reference."@,
            )
        },
{
}

/// What was dropped of the output of a command is told, its output first, and nothing
/// where nothing was.
pub proof fn law_dropped_output_is_told(stdout_truncated: bool, stderr_truncated: bool)
    ensures
        ({
            let stdout =
                "aws-why: command stdout exceeded the 64 MiB --json replay limit and was truncated"@;
            let stderr =
                "aws-why: command stderr exceeded the 8 MiB replay limit and was truncated"@;
            let told = replay_warnings(stdout_truncated, stderr_truncated);
            &&& stdout_truncated && stderr_truncated ==> told == seq![stdout, stderr]
            &&& stdout_truncated && !stderr_truncated ==> told == seq![stdout]
            &&& !stdout_truncated && stderr_truncated ==> told == seq![stderr]
            &&& !stdout_truncated && !stderr_truncated ==> told.len() == 0
        }),
{
    let stdout =
        "aws-why: command stdout exceeded the 64 MiB --json replay limit and was truncated"@;
    let stderr = "aws-why: command stderr exceeded the 8 MiB replay limit and was truncated"@;
    assert(seq![stdout].push(stderr) =~= seq![stdout, stderr]);
    assert(Seq::<Seq<char>>::empty().push(stderr) =~= seq![stderr]);
}

/// Where no action is named, `permissions` simulates every action that AWS lists for the
/// service and no other, and says so; where the list cannot be had, why is told.
pub proof fn law_whole_services_are_simulated(
    service: Seq<char>,
    resources: Seq<Seq<char>>,
    fetched: Result<ReferenceView, Seq<char>>,
    i: int,
)
    ensures
        match permissions_requested(service, Seq::empty(), resources, Some(fetched)) {
            RequestStepView::Done(Ok(request)) => fetched matches Ok(reference) && {
                &&& request.service == Some(ascii_lower(service))
                &&& Ok::<Seq<Seq<char>>, Seq<char>>(request.resources) == normalized_resources(
                    resources,
                )
                &&& request.fetched_catalog
                &&& 0 <= i < reference.actions.len() ==> request.actions.contains(
                    ascii_lower(service) + ":"@ + reference.actions[i].name,
                )
                &&& forall|action: Seq<char>| #[trigger]
                    request.actions.contains(action) ==> exists|k: int|
                        0 <= k < reference.actions.len() && action == ascii_lower(service) + ":"@
                            + (#[trigger] reference.actions[k]).name
            },
            RequestStepView::Done(Err(error)) => {
                ||| normalized_service(service) is Err
                ||| normalized_resources(resources) is Err
                ||| fetched == Err::<ReferenceView, Seq<char>>(error)
                ||| (fetched matches Ok(reference) && reference.actions.len() == 0)
            },
            RequestStepView::NeedReference(_) => false,
        },
{
    let name = ascii_lower(service);
    law_normalized_services(service);
    if let Ok(reference) = fetched {
        let listed = listed_actions(reference, name);
        lemma_ordered(listed);
        if 0 <= i < reference.actions.len() {
            assert(listed.contains(listed[i]));
        }
        assert forall|action: Seq<char>| #[trigger] ordered(listed).contains(action) implies exists|
            k: int,
        |
            0 <= k < reference.actions.len() && action == name + ":"@ + (
            #[trigger] reference.actions[k]).name by {
            let k = choose|k: int| 0 <= k < listed.len() && listed[k] == action;
            assert(action == name + ":"@ + reference.actions[k].name);
        }
    }
}

/// A simulation is made under the policies of the user or role that apply to the
/// identity, and for nobody else.
pub proof fn law_simulations_have_a_source(identity: IdentityView)
    ensures
        simulated_source(identity) is Ok <==> identity.policy_source_arn() is Some,
        simulated_source(identity) matches Ok(source) ==> identity.policy_source_arn() == Some(
            source,
        ),
        simulated_source(identity) matches Err(error) ==> error
            == "The current identity cannot be mapped to an IAM user or role."@,
        NOT_SIMULATED == 2,
        NOT_EXECUTED == 126,
{
}

/// Everything in a report on one answered batch is allowed just where IAM words every
/// evaluation as `allow` or `allowed`, whatever else it says of them.
pub proof fn law_only_what_iam_allows_is_allowed(
    document: Json,
    expected: nat,
    identity: IdentityView,
    request: RequestView,
)
    requires
        items_of(member(document, "EvaluationResults"@)).len() == expected,
    ensures
        batch_results(document, expected) matches Ok(results) ==> (simulated_report(
            identity,
            request,
            results,
        ) matches Ok(report) ==> {
            let evaluations = items_of(member(document, "EvaluationResults"@));
            all_allowed(report.authorization) <==> forall|i: int|
                0 <= i < evaluations.len() ==> is_worded_as_allowed(#[trigger] evaluations[i])
        }),
{
    let evaluations = items_of(member(document, "EvaluationResults"@));
    if let Ok(results) = batch_results(document, expected) {
        if let Ok(report) = simulated_report(identity, request, results) {
            let shown = report.authorization;
            assert forall|i: int| 0 <= i < evaluations.len() implies (
            #[trigger] shown[i].decision == Decision::Allowed) == is_worded_as_allowed(
                evaluations[i],
            ) by {
                law_batches_are_answered_in_full(document, expected, i);
                law_shown_results_are_the_same(results, i);
                law_words_tell_decisions(text_member(evaluations[i], "EvalDecision"@).unwrap());
            }
            assert(shown.len() == evaluations.len());
            if all_allowed(shown) {
                assert forall|i: int| 0 <= i < evaluations.len() implies is_worded_as_allowed(
                    #[trigger] evaluations[i],
                ) by {
                    assert(shown[i].decision == Decision::Allowed);
                }
            }
            if forall|i: int|
                0 <= i < evaluations.len() ==> is_worded_as_allowed(#[trigger] evaluations[i]) {
                assert forall|i: int| 0 <= i < shown.len() implies (#[trigger] shown[i]).decision
                    == Decision::Allowed by {
                    assert(is_worded_as_allowed(evaluations[i]));
                }
            }
        }
    }
}

/// IAM words the decision of an evaluation as `allow` or `allowed`, in any case and
/// whatever underscores stand between the letters.
pub open spec fn is_worded_as_allowed(evaluation: Json) -> bool {
    match member(evaluation, "EvalDecision"@) {
        Some(Json::Text(word)) => {
            let letters = without_char(ascii_lower(word@), '_');
            letters == "allow"@ || letters == "allowed"@
        },
        _ => false,
    }
}

} // verus!
