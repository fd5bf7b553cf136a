use crate::channel_utils::ChannelType;
use crate::pad::{lemma_link_forwards_stream_in_order, link_run, LinkEvent};
use vstd::prelude::*;

verus! {

/// An end of a channel inside a joined link: the joined link's own input and output, and
/// the two links it joins.
#[derive(Debug, Clone, Copy, PartialEq, Eq, Structural)]
pub enum WireEnd {
    Input,
    FirstLink,
    SecondLink,
    Output,
}

/// A forwarder that a joined link runs between two of its ends.
#[derive(Debug, Clone, Copy, PartialEq, Eq, Structural)]
pub enum Wire {
    /// From the joined link's input into the first link.
    InputToFirst,
    /// From the second link's output out of the joined link.
    SecondToOutput,
    /// From the first link's output into the second link.
    FirstToSecond,
}

impl Wire {
    /// The end this wire takes its items from.
    pub open spec fn source(self) -> WireEnd {
        match self {
            Wire::InputToFirst => WireEnd::Input,
            Wire::SecondToOutput => WireEnd::SecondLink,
            Wire::FirstToSecond => WireEnd::FirstLink,
        }
    }

    /// The end this wire delivers its items to.
    pub open spec fn target(self) -> WireEnd {
        match self {
            Wire::InputToFirst => WireEnd::FirstLink,
            Wire::SecondToOutput => WireEnd::Output,
            Wire::FirstToSecond => WireEnd::SecondLink,
        }
    }
}

/// Where the wires of `plan` carry what leaves `end`: the target of the first wire whose
/// source is `end`, if any.
pub open spec fn next_end(plan: Seq<Wire>, end: WireEnd) -> Option<WireEnd>
    decreases plan.len(),
{
    if plan.len() == 0 {
        None
    } else if plan[0].source() == end {
        Some(plan[0].target())
    } else {
        next_end(plan.drop_first(), end)
    }
}

/// What a forwarder delivers of a stream that yields `items` and then ends, to a sink that
/// takes every item.
pub open spec fn forwarded<D>(items: Seq<D>) -> Seq<D> {
    link_run(items.map_values(|d: D| LinkEvent::Received(d)).push(LinkEvent::StreamEnded)).0
}

/// The wires of `plan` route a joined link's input into the first link, the first link's
/// output into the second, and the second link's output out, following `next_end`.
pub open spec fn routes_first_then_second(plan: Seq<Wire>) -> bool {
    &&& next_end(plan, WireEnd::Input) == Some(WireEnd::FirstLink)
    &&& next_end(plan, WireEnd::FirstLink) == Some(WireEnd::SecondLink)
    &&& next_end(plan, WireEnd::SecondLink) == Some(WireEnd::Output)
}

/// What a joined link wired by `plan` gives out for `input`, when its first link turns a
/// stream into `first(stream)` and its second into `second(stream)`. Following `plan` from
/// the input, each wire forwards what its source gives; `None` when `plan` does not carry
/// the input through the first link and then the second to the output.
pub open spec fn joined_output<A, B, C>(
    plan: Seq<Wire>,
    first: spec_fn(Seq<A>) -> Seq<B>,
    second: spec_fn(Seq<B>) -> Seq<C>,
    input: Seq<A>,
) -> Option<Seq<C>> {
    if routes_first_then_second(plan) {
        Some(forwarded(second(forwarded(first(forwarded(input))))))
    } else {
        None
    }
}

/// A link joined by the wiring plan of `LinkWrapperWorker::wiring` behaves as its first link
/// followed by its second: what comes out for `input` is `second(first(input))`.
pub proof fn lemma_joined_link_composes<A, B, C>(
    first: spec_fn(Seq<A>) -> Seq<B>,
    second: spec_fn(Seq<B>) -> Seq<C>,
    input: Seq<A>,
)
    ensures
        joined_output(wiring_plan(), first, second, input) == Some(second(first(input))),
{
    lemma_wiring_plan_routes();
    lemma_link_forwards_stream_in_order(input);
    lemma_link_forwards_stream_in_order(first(input));
    lemma_link_forwards_stream_in_order(second(first(input)));
}

/// The forwarders a joined link runs, in the order it starts them.
pub open spec fn wiring_plan() -> Seq<Wire> {
    seq![Wire::InputToFirst, Wire::SecondToOutput, Wire::FirstToSecond]
}

/// Where the wires of the wiring plan lead: input, first link, second link, output.
pub proof fn lemma_wiring_plan_routes()
    ensures
        routes_first_then_second(wiring_plan()),
        next_end(wiring_plan(), WireEnd::Output) == None::<WireEnd>,
{
    let plan = wiring_plan();
    assert(plan.drop_first() == seq![Wire::SecondToOutput, Wire::FirstToSecond]);
    assert(plan.drop_first().drop_first() == seq![Wire::FirstToSecond]);
    assert(plan.drop_first().drop_first().drop_first().len() == 0);
    reveal_with_fuel(next_end, 4);
}

/// How a task of a running pipeline ended: it returned `Ok`, it returned an error,
/// or it did not return at all (it panicked or was cancelled).
#[derive(Debug, Clone, Copy, PartialEq, Eq, Structural)]
pub enum TaskOutcome {
    Succeeded,
    Failed,
    Aborted,
}

/// Two links joined into one: the output of the first feeds the second.
/// `CommunicationType` is what passes from the first link to the second.
pub struct LinkWrapper<
    InputType: ChannelType,
    OutputType: ChannelType,
    CommunicationType: ChannelType,
    Link1,
    Link2,
> {
    _phantom: core::marker::PhantomData<InputType>,
    _phantom2: core::marker::PhantomData<OutputType>,
    _phantom3: core::marker::PhantomData<CommunicationType>,
    link1: Link1,
    link2: Link2,
}

impl<
    InputType: ChannelType,
    OutputType: ChannelType,
    CommunicationType: ChannelType,
    Link1,
    Link2,
> LinkWrapper<InputType, OutputType, CommunicationType, Link1, Link2> {
    /// The first link, which takes the input.
    pub closed spec fn first(self) -> Link1 {
        self.link1
    }

    /// The second link, which gives the output.
    pub closed spec fn second(self) -> Link2 {
        self.link2
    }

    /// `link1` followed by `link2`.
    pub fn new(link1: Link1, link2: Link2) -> (wrapper: Self)
        ensures
            wrapper.first() == link1,
            wrapper.second() == link2,
    {
        Self {
            _phantom: core::marker::PhantomData,
            _phantom2: core::marker::PhantomData,
            _phantom3: core::marker::PhantomData,
            link1,
            link2,
        }
    }

    /// The two links, first and second, to be started.
    pub fn into_links(self) -> (links: (Link1, Link2))
        ensures
            links == (self.first(), self.second()),
    {
        (self.link1, self.link2)
    }
}

/// The worker that runs two links joined into one: it starts both links, feeds the input
/// into the first, the first's output into the second and the second's output out, and
/// passes the shutdown signal on to both.
pub struct LinkWrapperWorker {}

impl LinkWrapperWorker {
    /// The forwarders a joined link runs, in the order it starts them: the joined link's
    /// input into the first link, the second link's output out, and the first link's
    /// output into the second link.
    pub fn wiring() -> (plan: Vec<Wire>)
        ensures
            plan@ == wiring_plan(),
            routes_first_then_second(plan@),
            next_end(plan@, WireEnd::Output) == None::<WireEnd>,
    {
        let plan = vec![Wire::InputToFirst, Wire::SecondToOutput, Wire::FirstToSecond];
        proof {
            lemma_wiring_plan_routes();
        }
        plan
    }

    /// Whether the joined link ran successfully, given whether each of its tasks (the two
    /// links, the shutdown fan-out and the three forwarders between them) returned `Ok`:
    /// only if every one of them did.
    pub fn succeeded(task_results: &Vec<bool>) -> (ok: bool)
        ensures
            ok == forall|i: int| 0 <= i < task_results.len() ==> #[trigger] task_results[i],
    {
        let mut i: usize = 0;
        while i < task_results.len()
            invariant
                i <= task_results.len(),
                forall|j: int| 0 <= j < i ==> #[trigger] task_results[j],
            decreases task_results.len() - i,
        {
            if !task_results[i] {
                return false;
            }
            i = i + 1;
        }
        true
    }
}

/// What the supervisor of a running pipeline does after a task ends.
#[derive(Debug, Clone, Copy, PartialEq, Eq, Structural)]
pub enum SupervisorAction {
    /// Tell every element of the pipeline to shut down, then keep waiting.
    ShutDown,
    /// Keep waiting for the remaining tasks.
    KeepWaiting,
    /// Stop, returning the error that the task returned.
    ReturnTaskError,
    /// Stop, returning the reason the task did not finish.
    ReturnAbortError,
    /// Stop, returning a generic error.
    ReturnGenericError,
    /// Stop: every task ended, the pipeline ran successfully.
    ReturnOk,
}

impl SupervisorAction {
    /// The supervisor stops after this action.
    pub open spec fn is_final(self) -> bool {
        !(self is ShutDown || self is KeepWaiting)
    }
}

/// The rule of the supervisor, given whether the shutdown was already signalled and how the
/// next task ended (`None`: no task is left): the supervisor's next state and its action.
/// The first task to end decides: if it succeeded, everything is told to shut down; if not,
/// its error is returned. Afterwards any failure is returned and the end of all tasks is success.
pub open spec fn supervisor_reaction(shutdown_sent: bool, next: Option<TaskOutcome>) -> (
    bool,
    SupervisorAction,
) {
    match next {
        None => (shutdown_sent, SupervisorAction::ReturnOk),
        Some(TaskOutcome::Succeeded) => if shutdown_sent {
            (true, SupervisorAction::KeepWaiting)
        } else {
            (true, SupervisorAction::ShutDown)
        },
        Some(TaskOutcome::Failed) => if shutdown_sent {
            (true, SupervisorAction::ReturnGenericError)
        } else {
            (false, SupervisorAction::ReturnTaskError)
        },
        Some(TaskOutcome::Aborted) => (shutdown_sent, SupervisorAction::ReturnAbortError),
    }
}

/// Watches the tasks of a running pipeline as they end, one by one.
pub struct Supervisor {
    shutdown_sent: bool,
}

impl Supervisor {
    /// Whether the shutdown has been signalled.
    pub closed spec fn has_shut_down(self) -> bool {
        self.shutdown_sent
    }

    /// A supervisor before any task ended.
    pub fn new() -> (s: Self)
        ensures
            !s.has_shut_down(),
    {
        Supervisor { shutdown_sent: false }
    }

    /// Reacts to the end of the next task (`None`: no task is left).
    pub fn on_task_end(&mut self, next: Option<TaskOutcome>) -> (action: SupervisorAction)
        ensures
            (final(self).has_shut_down(), action) == supervisor_reaction(
                old(self).has_shut_down(),
                next,
            ),
    {
        match next {
            None => SupervisorAction::ReturnOk,
            Some(TaskOutcome::Succeeded) => {
                if self.shutdown_sent {
                    SupervisorAction::KeepWaiting
                } else {
                    self.shutdown_sent = true;
                    SupervisorAction::ShutDown
                }
            },
            Some(TaskOutcome::Failed) => {
                if self.shutdown_sent {
                    SupervisorAction::ReturnGenericError
                } else {
                    SupervisorAction::ReturnTaskError
                }
            },
            Some(TaskOutcome::Aborted) => SupervisorAction::ReturnAbortError,
        }
    }
}

/// The actions of a supervisor that starts with `shutdown_sent` and sees the tasks end
/// with `outcomes`, in that order, and then no task left; up to and including its final action.
pub open spec fn supervisor_run(shutdown_sent: bool, outcomes: Seq<TaskOutcome>) -> Seq<
    SupervisorAction,
>
    decreases outcomes.len(),
{
    if outcomes.len() == 0 {
        seq![supervisor_reaction(shutdown_sent, None).1]
    } else {
        let (next_sent, action) = supervisor_reaction(shutdown_sent, Some(outcomes[0]));
        if action.is_final() {
            seq![action]
        } else {
            seq![action] + supervisor_run(next_sent, outcomes.drop_first())
        }
    }
}

/// A supervised pipeline ends successfully exactly when every one of its tasks succeeded.
pub proof fn lemma_pipeline_succeeds_iff_all_tasks_succeed(
    shutdown_sent: bool,
    outcomes: Seq<TaskOutcome>,
)
    ensures
        supervisor_run(shutdown_sent, outcomes).last() == SupervisorAction::ReturnOk <==> forall|
            i: int,
        |
            0 <= i < outcomes.len() ==> #[trigger] outcomes[i] == TaskOutcome::Succeeded,
    decreases outcomes.len(),
{
    if outcomes.len() > 0 {
        let (next_sent, action) = supervisor_reaction(shutdown_sent, Some(outcomes[0]));
        lemma_pipeline_succeeds_iff_all_tasks_succeed(next_sent, outcomes.drop_first());
        if !action.is_final() {
            let rest = supervisor_run(next_sent, outcomes.drop_first());
            assert((seq![action] + rest).last() == rest.last());
            if forall|i: int|
                0 <= i < outcomes.drop_first().len() ==> #[trigger] outcomes.drop_first()[i]
                    == TaskOutcome::Succeeded {
                assert forall|i: int|
                    0 <= i < outcomes.len() implies #[trigger] outcomes[i]
                    == TaskOutcome::Succeeded by {
                    if i > 0 {
                        assert(outcomes[i] == outcomes.drop_first()[i - 1]);
                    }
                }
            } else {
                let k = choose|k: int|
                    0 <= k < outcomes.drop_first().len() && outcomes.drop_first()[k]
                        != TaskOutcome::Succeeded;
                assert(outcomes[k + 1] != TaskOutcome::Succeeded);
            }
        }
    }
}

/// Whatever the tasks do, the shutdown is signalled at most once, and only as the
/// reaction to the first task to end, when that task succeeded.
pub proof fn lemma_shutdown_signalled_once_after_first_success(outcomes: Seq<TaskOutcome>)
    ensures
        forall|k: int|
            0 <= k < supervisor_run(false, outcomes).len() ==> (#[trigger] supervisor_run(
                false,
                outcomes,
            )[k] == SupervisorAction::ShutDown <==> k == 0 && outcomes.len() > 0 && outcomes[0]
                == TaskOutcome::Succeeded),
{
    if outcomes.len() > 0 {
        let (next_sent, action) = supervisor_reaction(false, Some(outcomes[0]));
        if !action.is_final() {
            assert(next_sent);
            lemma_no_shutdown_once_signalled(outcomes.drop_first());
        }
    }
}

/// Once the shutdown was signalled, it is never signalled again.
pub proof fn lemma_no_shutdown_once_signalled(outcomes: Seq<TaskOutcome>)
    ensures
        forall|k: int|
            0 <= k < supervisor_run(true, outcomes).len() ==> #[trigger] supervisor_run(
                true,
                outcomes,
            )[k] != SupervisorAction::ShutDown,
    decreases outcomes.len(),
{
    if outcomes.len() > 0 {
        let (next_sent, action) = supervisor_reaction(true, Some(outcomes[0]));
        if !action.is_final() {
            lemma_no_shutdown_once_signalled(outcomes.drop_first());
            let rest = supervisor_run(next_sent, outcomes.drop_first());
            assert forall|k: int|
                0 <= k < (seq![action] + rest).len() implies #[trigger] (seq![action] + rest)[k]
                != SupervisorAction::ShutDown by {
                if k > 0 {
                    assert((seq![action] + rest)[k] == rest[k - 1]);
                }
            }
        }
    }
}

} // verus!
