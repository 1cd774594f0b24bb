//! Simulates every action on every resource, some actions at a time. The library
//! says which call to make next and reads what came back; making the call is left
//! to its user.
use vstd::prelude::*;

use crate::context::{AwsCommandContext, ContextView};
use crate::diagnosis::{call_of, outcome, results_outcome};
use crate::errors::{evidence_of, parse_aws_error};
use crate::evaluations::{
    decision_of, law_each_evaluation_has_its_result, parse_simulations, simulated_result,
    simulated_results,
};
use crate::json::{items_of, member, text_member, Json};
use crate::model::{
    lemma_views_push, views, AuthorizationResult, AuthorizationView, AwsIdentity, FailureKind,
    IdentityView,
};
use crate::outside::{json_value, parse_json};
use crate::runner::{CallView, DiagnosticCall, Reply};
use crate::text::{decimal, decimal_of, lemma_texts_push, strs, texts};

verus! {

/// How many actions one call simulates.
pub const BATCH_SIZE: usize = 50;

/// The actions that one call simulates on one resource.
pub struct Batch {
    pub actions: Vec<String>,
    pub resource: String,
}

pub struct BatchView {
    pub actions: Seq<Seq<char>>,
    pub resource: Seq<char>,
}

impl View for Batch {
    type V = BatchView;

    open spec fn view(&self) -> BatchView {
        BatchView { actions: texts(self.actions@), resource: self.resource@ }
    }
}

/// The actions from `from` on for one resource, in batches.
pub open spec fn batches_from(actions: Seq<Seq<char>>, resource: Seq<char>, from: int) -> Seq<
    BatchView,
>
    decreases actions.len() - from,
{
    if from < 0 || from >= actions.len() {
        Seq::empty()
    } else if actions.len() - from <= BATCH_SIZE {
        seq![BatchView { actions: actions.skip(from), resource }]
    } else {
        seq![BatchView { actions: actions.subrange(from, from + BATCH_SIZE), resource }]
            + batches_from(actions, resource, from + BATCH_SIZE)
    }
}

/// The batches for the first `count` resources, one resource after the other.
pub open spec fn planned(actions: Seq<Seq<char>>, resources: Seq<Seq<char>>, count: nat) -> Seq<
    BatchView,
>
    decreases count,
{
    if count == 0 {
        Seq::empty()
    } else {
        planned(actions, resources, (count - 1) as nat) + batches_from(
            actions,
            resources[count - 1],
            0,
        )
    }
}

/// The command that simulates a batch.
pub open spec fn batch_command(source: Seq<char>, batch: BatchView) -> Seq<Seq<char>> {
    seq![
        "iam"@,
        "simulate-principal-policy"@,
        "--policy-source-arn"@,
        source,
        "--action-names"@,
    ] + batch.actions + seq![
        "--resource-arns"@,
        batch.resource,
        "--max-items"@,
        "1000"@,
        "--output"@,
        "json"@,
    ]
}

/// Why a call that failed did so, by its error stream.
pub open spec fn simulation_failure(stderr: Seq<u8>, source: Seq<char>) -> Seq<char> {
    match evidence_of(stderr) {
        Some(detail) => if detail.failure_kind == FailureKind::Authorization {
            "IAM denied the simulation request. The caller needs iam:SimulatePrincipalPolicy for "@
                + source + "."@
        } else {
            "IAM policy simulation failed with "@ + detail.error_code + "."@
        },
        None => "IAM policy simulation failed without a readable AWS error."@,
    }
}

/// What IAM says of a batch of `expected` actions, by the document that it gave
/// back.
pub open spec fn batch_results(document: Json, expected: nat) -> Result<
    Seq<AuthorizationView>,
    Seq<char>,
> {
    let results = simulated_results(items_of(member(document, "EvaluationResults"@)));
    if results.len() == expected {
        Ok(results)
    } else {
        Err(
            "IAM policy simulation returned "@ + decimal(results.len()) + " of "@ + decimal(
                expected,
            ) + " expected evaluation results."@,
        )
    }
}

/// What IAM says of a batch of `expected` actions, by what the call gave back.
pub open spec fn batch_outcome(reply: Reply, source: Seq<char>, expected: nat) -> Result<
    Seq<AuthorizationView>,
    Seq<char>,
> {
    match reply {
        Err(error) => Err("Could not run IAM policy simulation: "@ + error@),
        Ok(output) => if output.truncated {
            Err("IAM policy simulation output exceeded the diagnostic limit."@)
        } else if !output.success {
            Err(simulation_failure(output.stderr@, source))
        } else {
            match json_value(output.stdout@) {
                Some(document) => batch_results(document, expected),
                None => Err("AWS returned an unreadable policy simulation."@),
            }
        },
    }
}

/// Why a call that failed did so, by its error stream.
fn explain_failure(stderr: &[u8], source: &str) -> (r: String)
    ensures
        r@ == simulation_failure(stderr@, source@),
{
    match parse_aws_error(stderr) {
        Some(detail) => {
            if detail.failure_kind == FailureKind::Authorization {
                let mut text =
                    "IAM denied the simulation request. The caller needs iam:SimulatePrincipalPolicy for ".to_owned();
                text.append(source);
                text.append(".");
                text
            } else {
                let mut text = "IAM policy simulation failed with ".to_owned();
                text.append(detail.error_code.as_str());
                text.append(".");
                text
            }
        },
        None => "IAM policy simulation failed without a readable AWS error.".to_owned(),
    }
}

/// What IAM says of a batch of `expected` actions, by the document that it gave
/// back.
pub fn read_batch(document: &Json, expected: usize) -> (r: Result<
    Vec<AuthorizationResult>,
    String,
>)
    ensures
        results_outcome(r) == batch_results(*document, expected as nat),
{
    let results = parse_simulations(document);
    if results.len() == expected {
        Ok(results)
    } else {
        let mut text = "IAM policy simulation returned ".to_owned();
        text.append(decimal_of(results.len()).as_str());
        text.append(" of ");
        text.append(decimal_of(expected).as_str());
        text.append(" expected evaluation results.");
        Err(text)
    }
}

/// What IAM says of a batch of `expected` actions, by what the call gave back.
fn read_batch_reply(reply: &Reply, source: &str, expected: usize) -> (r: Result<
    Vec<AuthorizationResult>,
    String,
>)
    ensures
        results_outcome(r) == batch_outcome(*reply, source@, expected as nat),
{
    match reply {
        Err(error) => {
            let mut text = "Could not run IAM policy simulation: ".to_owned();
            text.append(error.as_str());
            Err(text)
        },
        Ok(output) => {
            if output.truncated {
                return Err(
                    "IAM policy simulation output exceeded the diagnostic limit.".to_owned(),
                );
            }
            if !output.success {
                return Err(explain_failure(output.stderr.as_slice(), source));
            }
            match parse_json(output.stdout.as_slice()) {
                Some(document) => read_batch(&document, expected),
                None => Err("AWS returned an unreadable policy simulation.".to_owned()),
            }
        },
    }
}

/// A simulation under way: what is left to ask, and the results so far.
pub struct PermissionSimulation {
    context: AwsCommandContext,
    source: String,
    batches: Vec<Batch>,
    done: usize,
    results: Vec<AuthorizationResult>,
}

pub struct SimulationView {
    pub context: ContextView,
    pub source: Seq<char>,
    pub pending: Seq<BatchView>,
    pub results: Seq<AuthorizationView>,
}

impl View for PermissionSimulation {
    type V = SimulationView;

    closed spec fn view(&self) -> SimulationView {
        SimulationView {
            context: self.context@,
            source: self.source@,
            pending: views(self.batches@).skip(self.done as int),
            results: views(self.results@),
        }
    }
}

/// The start of a simulation, or why it cannot be made.
pub open spec fn simulation_start(
    context: ContextView,
    identity: IdentityView,
    actions: Seq<Seq<char>>,
    resources: Seq<Seq<char>>,
) -> Result<SimulationView, Seq<char>> {
    match identity.policy_source_arn() {
        None => Err("IAM simulation supports IAM users and roles, not this principal type."@),
        Some(source) => if context.executable is None {
            Err("the wrapped executable is not the AWS CLI"@)
        } else {
            Ok(
                SimulationView {
                    context,
                    source,
                    pending: planned(actions, resources, resources.len()),
                    results: Seq::empty(),
                },
            )
        },
    }
}

/// A simulation once the reply to its next call has been read, or why it ended.
pub open spec fn simulation_next(simulation: SimulationView, reply: Reply) -> Result<
    SimulationView,
    Seq<char>,
> {
    match batch_outcome(reply, simulation.source, simulation.pending[0].actions.len()) {
        Ok(results) => Ok(
            SimulationView {
                pending: simulation.pending.skip(1),
                results: simulation.results + results,
                ..simulation
            },
        ),
        Err(error) => Err(error),
    }
}

/// Adds the batches for one resource.
fn push_batches(batches: &mut Vec<Batch>, actions: &Vec<String>, resource: &String)
    ensures
        views(final(batches)@) == views(old(batches)@) + batches_from(
            texts(actions@),
            resource@,
            0,
        ),
{
    let mut list: Vec<Batch> = Vec::new();
    std::mem::swap(&mut list, batches);
    let ghost before = views(list@);
    let ghost all = texts(actions@);
    assert(views(list@) + batches_from(all, resource@, 0) =~= before + batches_from(
        all,
        resource@,
        0,
    ));
    let mut from: usize = 0;
    while from < actions.len()
        invariant
            from <= actions@.len(),
            all == texts(actions@),
            views(list@) + batches_from(all, resource@, from as int) == before + batches_from(
                all,
                resource@,
                0,
            ),
        decreases actions.len() - from,
    {
        broadcast use lemma_views_push;

        let to: usize = if actions.len() - from <= BATCH_SIZE {
            actions.len()
        } else {
            from + BATCH_SIZE
        };
        let mut batch: Vec<String> = Vec::new();
        let mut i: usize = from;
        while i < to
            invariant
                from <= i <= to <= actions@.len(),
                all == texts(actions@),
                texts(batch@) =~= all.subrange(from as int, i as int),
            decreases to - i,
        {
            broadcast use lemma_texts_push;

            batch.push(actions[i].clone());
            i += 1;
        }
        let ghost listed = views(list@);
        let ghost tail = batches_from(all, resource@, from as int);
        let ghost rest = batches_from(all, resource@, to as int);
        let item = Batch { actions: batch, resource: resource.clone() };
        assert(tail =~= seq![item@] + rest) by {
            assert(all.skip(from as int) =~= all.subrange(from as int, all.len() as int));
        }
        list.push(item);
        assert(listed.push(item@) + rest =~= listed + tail);
        from = to;
    }
    assert(views(list@) + batches_from(all, resource@, from as int) =~= views(list@));
    *batches = list;
}

/// Starts the simulation of every action on every resource.
pub fn simulate_permissions(
    context: &AwsCommandContext,
    identity: &AwsIdentity,
    actions: &Vec<String>,
    resources: &Vec<String>,
) -> (r: Result<PermissionSimulation, String>)
    ensures
        outcome(r) == simulation_start(context@, identity@, texts(actions@), texts(resources@)),
{
    let source = match identity.policy_source_arn() {
        Some(source) => source,
        None => {
            return Err(
                "IAM simulation supports IAM users and roles, not this principal type.".to_owned(),
            );
        },
    };
    if let Err(note) = context.executable() {
        return Err(note);
    }
    let mut batches: Vec<Batch> = Vec::new();
    let ghost listed = texts(resources@);
    assert(views(batches@) =~= planned(texts(actions@), listed, 0));
    let mut i: usize = 0;
    while i < resources.len()
        invariant
            i <= resources@.len(),
            listed == texts(resources@),
            views(batches@) == planned(texts(actions@), listed, i as nat),
        decreases resources.len() - i,
    {
        push_batches(&mut batches, actions, &resources[i]);
        i += 1;
    }
    let results: Vec<AuthorizationResult> = Vec::new();
    assert(views(results@) =~= Seq::<AuthorizationView>::empty());
    assert(views(batches@).skip(0) =~= views(batches@));
    Ok(PermissionSimulation { context: context.clone(), source, batches, done: 0, results })
}

impl PermissionSimulation {
    /// Every batch that was asked for stands in the list of batches, and there is an
    /// executable to ask.
    #[verifier::type_invariant]
    spec fn wf(self) -> bool {
        self.done <= self.batches@.len() && self.context@.executable is Some
    }

    /// The next call to make, or none where everything has been asked.
    pub fn next_call(&self) -> (r: Option<DiagnosticCall>)
        ensures
            match r {
                Some(call) => self@.pending.len() > 0 && Ok::<CallView, Seq<char>>(call@)
                    == call_of(self@.context, batch_command(self@.source, self@.pending[0])),
                None => self@.pending.len() == 0,
            },
    {
        proof {
            use_type_invariant(self);
        }
        if self.done >= self.batches.len() {
            return None;
        }
        let batch = &self.batches[self.done];
        let head = [
            "iam",
            "simulate-principal-policy",
            "--policy-source-arn",
            self.source.as_str(),
            "--action-names",
        ];
        let mut args = self.context.args_for(&head);
        let ghost start = texts(args@);
        let ghost listed = texts(batch.actions@);
        let mut i: usize = 0;
        while i < batch.actions.len()
            invariant
                i <= batch.actions@.len(),
                listed == texts(batch.actions@),
                texts(args@) =~= start + listed.take(i as int),
            decreases batch.actions.len() - i,
        {
            broadcast use lemma_texts_push;

            args.push(batch.actions[i].clone());
            i += 1;
        }
        broadcast use lemma_texts_push;

        args.push("--resource-arns".to_owned());
        args.push(batch.resource.clone());
        args.push("--max-items".to_owned());
        args.push("1000".to_owned());
        args.push("--output".to_owned());
        args.push("json".to_owned());
        assert(strs(head@) =~= seq![
            "iam"@,
            "simulate-principal-policy"@,
            "--policy-source-arn"@,
            self.source@,
            "--action-names"@,
        ]);
        assert(self@.pending[0] == batch@);
        assert(texts(args@) =~= self.context@.args_for(batch_command(self.source@, batch@)));
        match self.context.executable() {
            Ok(executable) => Some(DiagnosticCall { executable: executable.to_owned(), args }),
            Err(_) => None,
        }
    }

    /// Reads the reply to the next call. A reply that cannot be used ends the
    /// simulation: the simulation stays as it was, and the text says why.
    pub fn accept(&mut self, reply: &Reply) -> (r: Result<(), String>)
        requires
            old(self)@.pending.len() > 0,
        ensures
            match simulation_next(old(self)@, *reply) {
                Ok(next) => r is Ok && final(self)@ == next,
                Err(error) => r matches Err(e) && e@ == error && final(self)@ == old(self)@,
            },
    {
        proof {
            use_type_invariant(&*self);
        }
        let done = self.done;
        let expected = self.batches[done].actions.len();
        assert(done < self.batches.len());
        assert(self@.pending[0] == self.batches@[done as int]@);
        match read_batch_reply(reply, self.source.as_str(), expected) {
            Err(error) => Err(error),
            Ok(fresh) => {
                let ghost before = self@;
                let mut results: Vec<AuthorizationResult> = Vec::new();
                std::mem::swap(&mut results, &mut self.results);
                let ghost known = views(results@);
                let mut i: usize = 0;
                while i < fresh.len()
                    invariant
                        i <= fresh@.len(),
                        views(results@) =~= known + views(fresh@).take(i as int),
                    decreases fresh.len() - i,
                {
                    broadcast use lemma_views_push;

                    results.push(fresh[i].clone());
                    i += 1;
                }
                self.results = results;
                self.done = done + 1;
                assert(self@.pending =~= before.pending.skip(1));
                assert(self@.results =~= before.results + views(fresh@));
                Ok(())
            },
        }
    }

    /// The results.
    pub fn finish(self) -> (r: Vec<AuthorizationResult>)
        ensures
            views(r@) == self@.results,
    {
        self.results
    }
}

/// How many actions a list of batches simulates.
pub open spec fn pairs_in(batches: Seq<BatchView>) -> nat
    decreases batches.len(),
{
    if batches.len() == 0 {
        0
    } else {
        batches[0].actions.len() + pairs_in(batches.skip(1))
    }
}

/// The actions of the batches, one batch after the other.
pub open spec fn actions_in(batches: Seq<BatchView>) -> Seq<Seq<char>>
    decreases batches.len(),
{
    if batches.len() == 0 {
        Seq::empty()
    } else {
        batches[0].actions + actions_in(batches.skip(1))
    }
}

proof fn lemma_pairs_in_both(first: Seq<BatchView>, second: Seq<BatchView>)
    ensures
        pairs_in(first + second) == pairs_in(first) + pairs_in(second),
    decreases first.len(),
{
    if first.len() == 0 {
        assert(first + second =~= second);
    } else {
        lemma_pairs_in_both(first.skip(1), second);
        assert((first + second).skip(1) =~= first.skip(1) + second);
    }
}

proof fn lemma_batches_from(actions: Seq<Seq<char>>, resource: Seq<char>, from: int)
    requires
        0 <= from <= actions.len(),
    ensures
        actions_in(batches_from(actions, resource, from)) == actions.skip(from),
        pairs_in(batches_from(actions, resource, from)) == actions.len() - from,
        forall|i: int|
            0 <= i < batches_from(actions, resource, from).len() ==> {
                let batch = #[trigger] batches_from(actions, resource, from)[i];
                0 < batch.actions.len() <= BATCH_SIZE && batch.resource == resource
            },
    decreases actions.len() - from,
{
    reveal_with_fuel(actions_in, 2);
    reveal_with_fuel(pairs_in, 2);
    let all = batches_from(actions, resource, from);
    if from == actions.len() {
        assert(actions.skip(from) =~= Seq::empty());
    } else if actions.len() - from <= BATCH_SIZE {
        assert(all.skip(1) =~= Seq::empty());
        assert(all[0].actions + Seq::<Seq<char>>::empty() =~= actions.skip(from));
    } else {
        lemma_batches_from(actions, resource, from + BATCH_SIZE);
        let rest = batches_from(actions, resource, from + BATCH_SIZE);
        assert(all.skip(1) =~= rest);
        assert(all[0].actions + actions.skip(from + BATCH_SIZE) =~= actions.skip(from));
        assert forall|i: int| 0 <= i < all.len() implies {
            let batch = #[trigger] all[i];
            0 < batch.actions.len() <= BATCH_SIZE && batch.resource == resource
        } by {
            if i > 0 {
                assert(all[i] == rest[i - 1]);
            }
        }
    }
}

/// The actions are evaluated in bounded batches: each holds at least one action
/// and no more than fit, is for the resource, and the batches together hold the
/// actions in their order, each once.
pub proof fn law_batches_are_bounded_and_complete(actions: Seq<Seq<char>>, resource: Seq<char>)
    ensures
        actions_in(batches_from(actions, resource, 0)) == actions,
        forall|i: int|
            0 <= i < batches_from(actions, resource, 0).len() ==> {
                let batch = #[trigger] batches_from(actions, resource, 0)[i];
                0 < batch.actions.len() <= BATCH_SIZE && batch.resource == resource
            },
{
    lemma_batches_from(actions, resource, 0);
    assert(actions.skip(0) =~= actions);
}

/// A plan asks for every action on every resource.
pub proof fn law_plan_covers_every_pair(
    actions: Seq<Seq<char>>,
    resources: Seq<Seq<char>>,
    count: nat,
)
    requires
        count <= resources.len(),
    ensures
        pairs_in(planned(actions, resources, count)) == count * actions.len(),
    decreases count,
{
    if count > 0 {
        law_plan_covers_every_pair(actions, resources, (count - 1) as nat);
        lemma_batches_from(actions, resources[count - 1], 0);
        lemma_pairs_in_both(
            planned(actions, resources, (count - 1) as nat),
            batches_from(actions, resources[count - 1], 0),
        );
        assert(count * actions.len() == (count - 1) * actions.len() + actions.len())
            by (nonlinear_arith)
            requires
                count > 0,
        ;
    } else {
        assert(count * actions.len() == 0) by (nonlinear_arith)
            requires
                count == 0,
        ;
    }
}

/// The simulation after the replies to its calls, or why it ended.
pub open spec fn simulation_after(simulation: SimulationView, replies: Seq<Reply>) -> Result<
    SimulationView,
    Seq<char>,
>
    decreases replies.len(),
{
    if replies.len() == 0 {
        Ok(simulation)
    } else {
        match simulation_next(simulation, replies[0]) {
            Ok(next) => simulation_after(next, replies.skip(1)),
            Err(error) => Err(error),
        }
    }
}

proof fn lemma_results_and_pending(simulation: SimulationView, replies: Seq<Reply>)
    requires
        replies.len() <= simulation.pending.len(),
    ensures
        simulation_after(simulation, replies) matches Ok(after) ==> {
            &&& after.pending == simulation.pending.skip(replies.len() as int)
            &&& after.results.len() + pairs_in(after.pending) == simulation.results.len()
                + pairs_in(simulation.pending)
        },
    decreases replies.len(),
{
    if replies.len() > 0 {
        match simulation_next(simulation, replies[0]) {
            Ok(next) => {
                lemma_results_and_pending(next, replies.skip(1));
                assert(simulation.pending.skip(1).skip(replies.len() - 1)
                    =~= simulation.pending.skip(replies.len() as int));
            },
            Err(_) => {},
        }
    } else {
        assert(simulation.pending.skip(0) =~= simulation.pending);
    }
}

/// A simulation whose calls were all answered has one result for each action on
/// each resource: an answer that leaves some out ends it instead.
pub proof fn law_every_pair_has_a_result(
    context: ContextView,
    identity: IdentityView,
    actions: Seq<Seq<char>>,
    resources: Seq<Seq<char>>,
    replies: Seq<Reply>,
)
    requires
        simulation_start(context, identity, actions, resources) is Ok,
        replies.len() == planned(actions, resources, resources.len()).len(),
    ensures
        simulation_after(
            simulation_start(context, identity, actions, resources)->Ok_0,
            replies,
        ) matches Ok(after) ==> after.pending.len() == 0 && after.results.len() == resources.len()
            * actions.len(),
{
    let start = simulation_start(context, identity, actions, resources)->Ok_0;
    lemma_results_and_pending(start, replies);
    law_plan_covers_every_pair(actions, resources, resources.len());
}

/// What one call simulates, to the letter: the actions of the batch, on its resource,
/// under the policies of the source.
pub proof fn law_calls_simulate_their_batch(source: Seq<char>, batch: BatchView)
    ensures
        BATCH_SIZE == 50,
        batch_command(source, batch) == seq![
            "iam"@,
            "simulate-principal-policy"@,
            "--policy-source-arn"@,
            source,
            "--action-names"@,
        ] + batch.actions + seq![
            "--resource-arns"@,
            batch.resource,
            "--max-items"@,
            "1000"@,
            "--output"@,
            "json"@,
        ],
{
}

/// The pairs of an action and a resource that batches simulate, in the order of the
/// calls.
pub open spec fn pairs_of(batches: Seq<BatchView>) -> Seq<(Seq<char>, Seq<char>)>
    decreases batches.len(),
{
    if batches.len() == 0 {
        Seq::empty()
    } else {
        Seq::new(
            batches[0].actions.len(),
            |i: int| (batches[0].actions[i], batches[0].resource),
        ) + pairs_of(batches.skip(1))
    }
}

proof fn lemma_pairs_of_both(first: Seq<BatchView>, second: Seq<BatchView>)
    ensures
        pairs_of(first + second) == pairs_of(first) + pairs_of(second),
    decreases first.len(),
{
    if first.len() == 0 {
        assert(first + second =~= second);
        assert(pairs_of(first) + pairs_of(second) =~= pairs_of(second));
    } else {
        lemma_pairs_of_both(first.skip(1), second);
        assert((first + second).skip(1) =~= first.skip(1) + second);
        assert(pairs_of(first + second) =~= pairs_of(first) + pairs_of(second));
    }
}

proof fn lemma_pairs_of_batches(actions: Seq<Seq<char>>, resource: Seq<char>, from: int)
    requires
        0 <= from <= actions.len(),
    ensures
        pairs_of(batches_from(actions, resource, from)) == Seq::new(
            (actions.len() - from) as nat,
            |i: int| (actions[from + i], resource),
        ),
    decreases actions.len() - from,
{
    reveal_with_fuel(pairs_of, 2);
    let all = batches_from(actions, resource, from);
    let wanted = Seq::new(
        (actions.len() - from) as nat,
        |i: int| (actions[from + i], resource),
    );
    if from == actions.len() {
        assert(pairs_of(all) =~= wanted);
    } else if actions.len() - from <= BATCH_SIZE {
        assert(all.skip(1) =~= Seq::empty());
        assert(pairs_of(all) =~= wanted);
    } else {
        lemma_pairs_of_batches(actions, resource, from + BATCH_SIZE);
        assert(all.skip(1) =~= batches_from(actions, resource, from + BATCH_SIZE));
        assert(pairs_of(all) =~= wanted);
    }
}

proof fn lemma_pairs_of_plan(
    actions: Seq<Seq<char>>,
    resources: Seq<Seq<char>>,
    count: nat,
    action: int,
    resource: int,
)
    requires
        0 <= resource < count <= resources.len(),
        0 <= action < actions.len(),
    ensures
        pairs_of(planned(actions, resources, count)).len() == count * actions.len(),
        0 <= resource * actions.len() + action < count * actions.len(),
        pairs_of(planned(actions, resources, count))[resource * actions.len() + action] == (
            actions[action],
            resources[resource],
        ),
    decreases count,
{
    let n = actions.len();
    let before = planned(actions, resources, (count - 1) as nat);
    let last = batches_from(actions, resources[count - 1], 0);
    lemma_pairs_of_both(before, last);
    lemma_pairs_of_batches(actions, resources[count - 1], 0);
    assert(count * n == (count - 1) * n + n) by (nonlinear_arith);
    assert(pairs_of(before).len() == (count - 1) * n) by {
        if count > 1 {
            lemma_pairs_of_plan(actions, resources, (count - 1) as nat, action, 0);
        } else {
            assert((count - 1) * n == 0) by (nonlinear_arith)
                requires
                    count == 1,
            ;
        }
    }
    if resource < count - 1 {
        lemma_pairs_of_plan(actions, resources, (count - 1) as nat, action, resource);
    } else {
        assert(0 <= (count - 1) * n) by (nonlinear_arith)
            requires
                count >= 1,
        ;
    }
}

/// Every action is simulated on every resource, one resource after the other and on
/// each the actions in their order: the pair of the action at one place and the resource
/// at another stands where those places say.
pub proof fn law_pairs_are_simulated_in_order(
    actions: Seq<Seq<char>>,
    resources: Seq<Seq<char>>,
    action: int,
    resource: int,
)
    requires
        0 <= action < actions.len(),
        0 <= resource < resources.len(),
    ensures
        pairs_of(planned(actions, resources, resources.len())).len() == resources.len()
            * actions.len(),
        pairs_of(planned(actions, resources, resources.len()))[resource * actions.len() + action]
            == (actions[action], resources[resource]),
{
    lemma_pairs_of_plan(actions, resources, resources.len(), action, resource);
}

/// No batch but the last of a resource has room left.
pub proof fn law_batches_are_full(
    actions: Seq<Seq<char>>,
    resource: Seq<char>,
    from: int,
    i: int,
)
    requires
        0 <= from <= actions.len(),
        0 <= i < batches_from(actions, resource, from).len() - 1,
    ensures
        batches_from(actions, resource, from)[i].actions.len() == 50,
    decreases actions.len() - from,
{
    if actions.len() - from > BATCH_SIZE && i > 0 {
        law_batches_are_full(actions, resource, from + BATCH_SIZE, i - 1);
    }
}

/// A batch counts only where IAM evaluates each of its actions: then there is a result
/// for each evaluation, in the order in which IAM gives them, and the decision of each is
/// the one that it words. Else the batch is refused, and how many there are is told.
pub proof fn law_batches_are_answered_in_full(document: Json, expected: nat, i: int)
    ensures
        ({
            let evaluations = items_of(member(document, "EvaluationResults"@));
            let results = simulated_results(evaluations);
            &&& batch_results(document, expected) is Ok <==> results.len() == expected
            &&& batch_results(document, expected) matches Ok(told) ==> told == results
            &&& batch_results(document, expected) matches Err(error) ==> error
                == "IAM policy simulation returned "@ + decimal(results.len()) + " of "@ + decimal(
                expected,
            ) + " expected evaluation results."@
            &&& evaluations.len() == expected && 0 <= i < expected ==> (batch_results(
                document,
                expected,
            ) matches Ok(told) ==> {
                &&& text_member(evaluations[i], "EvalDecision"@) is Some
                &&& Some(told[i]) == simulated_result(evaluations[i], "unknown:Unknown"@, "*"@)
                &&& told[i].decision == decision_of(
                    text_member(evaluations[i], "EvalDecision"@).unwrap(),
                )
            })
        }),
{
    let evaluations = items_of(member(document, "EvaluationResults"@));
    if 0 <= i < evaluations.len() {
        law_each_evaluation_has_its_result(evaluations, i);
    }
}

/// A reply to a batch counts only where it can be read; else why it cannot is told. A
/// call that failed is told by the error that it wrote: that it was denied, and what the
/// caller needs, or the code of the error.
pub proof fn law_unreadable_batches_end_the_simulation(
    reply: Reply,
    source: Seq<char>,
    expected: nat,
)
    ensures
        match reply {
            Err(error) => batch_outcome(reply, source, expected) == Err::<
                Seq<AuthorizationView>,
                Seq<char>,
            >("Could not run IAM policy simulation: "@ + error@),
            Ok(output) => {
                &&& output.truncated ==> batch_outcome(reply, source, expected) == Err::<
                    Seq<AuthorizationView>,
                    Seq<char>,
                >("IAM policy simulation output exceeded the diagnostic limit."@)
                &&& !output.truncated && output.success ==> match json_value(output.stdout@) {
                    Some(document) => batch_outcome(reply, source, expected) == batch_results(
                        document,
                        expected,
                    ),
                    None => batch_outcome(reply, source, expected) == Err::<
                        Seq<AuthorizationView>,
                        Seq<char>,
                    >("AWS returned an unreadable policy simulation."@),
                }
                &&& !output.truncated && !output.success ==> match evidence_of(output.stderr@) {
                    Some(detail) => batch_outcome(reply, source, expected) == Err::<
                        Seq<AuthorizationView>,
                        Seq<char>,
                    >(
                        if detail.failure_kind == FailureKind::Authorization {
                            "IAM denied the simulation request. The caller needs iam:SimulatePrincipalPolicy for "@
                                + source + "."@
                        } else {
                            "IAM policy simulation failed with "@ + detail.error_code + "."@
                        },
                    ),
                    None => batch_outcome(reply, source, expected) == Err::<
                        Seq<AuthorizationView>,
                        Seq<char>,
                    >("IAM policy simulation failed without a readable AWS error."@),
                }
            },
        },
{
}

/// A simulation starts for a user or a role alone, with every batch to ask and no
/// result.
pub proof fn law_simulations_start_with_everything_to_ask(
    context: ContextView,
    identity: IdentityView,
    actions: Seq<Seq<char>>,
    resources: Seq<Seq<char>>,
)
    ensures
        simulation_start(context, identity, actions, resources) is Ok
            <==> identity.policy_source_arn() is Some && context.executable is Some,
        simulation_start(context, identity, actions, resources) matches Ok(start) ==> {
            &&& Some(start.source) == identity.policy_source_arn()
            &&& start.context == context
            &&& start.results.len() == 0
            &&& start.pending == planned(actions, resources, resources.len())
        },
{
}

/// The results of a batch follow those of the batches before it, and the next batch is
/// asked for; a batch that is refused ends the simulation.
pub proof fn law_results_follow_one_another(simulation: SimulationView, reply: Reply)
    requires
        simulation.pending.len() > 0,
    ensures
        match batch_outcome(reply, simulation.source, simulation.pending[0].actions.len()) {
            Ok(results) => simulation_next(simulation, reply) matches Ok(next) && next.results
                == simulation.results + results && next.pending == simulation.pending.subrange(
                1,
                simulation.pending.len() as int,
            ) && next.source == simulation.source && next.context == simulation.context,
            Err(error) => simulation_next(simulation, reply) == Err::<SimulationView, Seq<char>>(
                error,
            ),
        },
{
    assert(simulation.pending.skip(1) =~= simulation.pending.subrange(
        1,
        simulation.pending.len() as int,
    ));
}

} // verus!
