//! The orchestrator: it derives the project description from the user
//! request, owns the fact sheet and the fixed ordered roster, and drives the
//! agents sequentially from start to finish, halting at the first failing
//! step.

use vstd::prelude::*;

use crate::agent_traits::{AgentStepError, FactSheet};
use crate::agents::{
    fs_view, kind_of, step_fs, step_remaining, step_result, AgentBackendDeveloper, AgentKind,
    AgentSolutionArchitect, AgentVariant, FactSheetView,
};
use crate::ai_functions::AiFunction;
use crate::basic_agent::{AgentState, BasicAgent};
use crate::general::ai_task_request;
use crate::transport::{
    request_consumed, request_result, CompletionFeed, TransportError, TransportOutcome,
};

verus! {

/// Where a run stands: building the fact sheet and roster, driving the
/// roster, or done with the roster exhausted without failure.
#[derive(Debug, Clone, Copy, PartialEq, Eq, Structural)]
pub enum OrchestratorPhase {
    Initializing,
    Running,
    Completed,
}

/// The kinds of the roster's agents, in order.
pub open spec fn roster_kinds(agents: Seq<AgentVariant>) -> Seq<AgentKind> {
    agents.map_values(|a: AgentVariant| kind_of(a))
}

/// The first failing step of a roster run over `rem`, with its error: each
/// agent's step consumes its outcomes in turn, and the first error halts
/// the run. `None` means every step succeeds.
pub open spec fn roster_failure(kinds: Seq<AgentKind>, rem: Seq<TransportOutcome>) -> Option<
    (int, AgentStepError),
>
    decreases kinds.len(),
{
    if kinds.len() == 0 {
        None
    } else {
        match step_result(kinds[0], rem) {
            Err(e) => Some((0int, e)),
            Ok(_) => match roster_failure(kinds.drop_first(), step_remaining(kinds[0], rem)) {
                None => None,
                Some(ke) => Some((ke.0 + 1, ke.1)),
            },
        }
    }
}

/// The outcomes left after a roster run over `rem`.
pub open spec fn roster_remaining(kinds: Seq<AgentKind>, rem: Seq<TransportOutcome>) -> Seq<
    TransportOutcome,
>
    decreases kinds.len(),
{
    if kinds.len() == 0 {
        rem
    } else {
        match step_result(kinds[0], rem) {
            Err(_) => step_remaining(kinds[0], rem),
            Ok(_) => roster_remaining(kinds.drop_first(), step_remaining(kinds[0], rem)),
        }
    }
}

/// The fact sheet after a roster run over `rem`: every successful step's
/// fields committed in order, plus whatever the failing step committed
/// before its error, with no rollback.
pub open spec fn roster_fs(
    kinds: Seq<AgentKind>,
    v: FactSheetView,
    rem: Seq<TransportOutcome>,
) -> FactSheetView
    decreases kinds.len(),
{
    if kinds.len() == 0 {
        v
    } else {
        match step_result(kinds[0], rem) {
            Err(_) => step_fs(kinds[0], v, rem),
            Ok(_) => roster_fs(
                kinds.drop_first(),
                step_fs(kinds[0], v, rem),
                step_remaining(kinds[0], rem),
            ),
        }
    }
}

/// Drives the roster in order, giving each agent exclusive mutable access
/// to the fact sheet. The run's outcome is a function of the roster's kinds
/// and the recorded outcomes: with no failing step every agent finishes and
/// the result is Ok; otherwise the first failing step halts iteration with
/// its error, agents after it are left exactly as they were, and fields
/// already committed stay, with no rollback.
pub fn run_roster(
    agents: &mut Vec<AgentVariant>,
    factsheet: &mut FactSheet,
    feed: &mut CompletionFeed,
) -> (r: Result<(), AgentStepError>)
    requires
        old(feed).wf(),
    ensures
        final(feed).wf(),
        final(agents)@.len() == old(agents)@.len(),
        final(factsheet).project_description == old(factsheet).project_description,
        forall|i: int|
            0 <= i < final(agents)@.len() ==> #[trigger] final(agents)@[i].is_architect()
                == old(agents)@[i].is_architect(),
        fs_view(*final(factsheet)) == roster_fs(
            roster_kinds(old(agents)@),
            fs_view(*old(factsheet)),
            old(feed).remaining(),
        ),
        final(feed).remaining() == roster_remaining(
            roster_kinds(old(agents)@),
            old(feed).remaining(),
        ),
        match roster_failure(roster_kinds(old(agents)@), old(feed).remaining()) {
            None => {
                &&& r == Ok::<(), AgentStepError>(())
                &&& forall|i: int|
                    0 <= i < final(agents)@.len() ==> #[trigger] final(agents)@[i].state()
                        == AgentState::Finished
                &&& forall|i: int|
                    0 <= i < final(agents)@.len() ==> #[trigger] final(agents)@[i].success_marks(*final(factsheet))
            },
            Some(ke) => {
                &&& r == Err::<(), AgentStepError>(ke.1)
                &&& 0 <= ke.0 < final(agents)@.len()
                &&& forall|j: int|
                    ke.0 < j < final(agents)@.len() ==> #[trigger] final(agents)@[j] == old(agents)@[j]
                &&& forall|j: int|
                    0 <= j < ke.0 ==> #[trigger] final(agents)@[j].state()
                        == AgentState::Finished
                &&& forall|j: int|
                    0 <= j < ke.0 ==> #[trigger] final(agents)@[j].success_marks(
                        *final(factsheet),
                    )
            },
        },
{
    let ghost kinds = roster_kinds(old(agents)@);
    let ghost rem0 = old(feed).remaining();
    let ghost v0 = fs_view(*old(factsheet));
    let mut i: usize = 0;
    proof {
        assert(kinds.skip(0) =~= kinds);
    }
    while i < agents.len()
        invariant
            feed.wf(),
            i <= agents@.len(),
            agents@.len() == old(agents)@.len(),
            kinds == roster_kinds(old(agents)@),
            rem0 == old(feed).remaining(),
            v0 == fs_view(*old(factsheet)),
            factsheet.project_description == old(factsheet).project_description,
            forall|j: int| i <= j < agents@.len() ==> agents@[j] == old(agents)@[j],
            forall|j: int|
                0 <= j < agents@.len() ==> #[trigger] agents@[j].is_architect()
                    == old(agents)@[j].is_architect(),
            forall|j: int|
                0 <= j < i ==> #[trigger] agents@[j].state() == AgentState::Finished,
            forall|j: int| 0 <= j < i ==> #[trigger] agents@[j].success_marks(*factsheet),
            roster_fs(kinds, v0, rem0) == roster_fs(
                kinds.skip(i as int),
                fs_view(*factsheet),
                feed.remaining(),
            ),
            roster_remaining(kinds, rem0) == roster_remaining(
                kinds.skip(i as int),
                feed.remaining(),
            ),
            match roster_failure(kinds.skip(i as int), feed.remaining()) {
                None => roster_failure(kinds, rem0) is None,
                Some(ke) => roster_failure(kinds, rem0) == Some((ke.0 + i as int, ke.1)),
            },
        decreases agents@.len() - i,
    {
        let ghost pre = agents@;
        let ghost fs_pre = *factsheet;
        let ghost rem_pre = feed.remaining();
        let mut agent = agents.remove(i);
        let step = agent.execute(factsheet, feed);
        agents.insert(i, agent);
        proof {
            assert(agents@ =~= pre.update(i as int, agents@[i as int]));
            assert(kinds[i as int] == kind_of(old(agents)@[i as int]));
            assert(kinds.skip(i as int)[0] == kinds[i as int]);
            assert(kinds.skip(i as int).drop_first() =~= kinds.skip(i as int + 1));
        }
        match step {
            Ok(()) => {
                proof {
                    assert forall|j: int| 0 <= j < i + 1 implies #[trigger] agents@[j]
                        .success_marks(*factsheet) by {
                        if j < i as int {
                            assert(pre[j].success_marks(fs_pre));
                            assert(agents@[j] == pre[j]);
                        }
                    }
                    // one successful step advances the chain
                    assert(roster_fs(kinds.skip(i as int), fs_view(fs_pre), rem_pre)
                        == roster_fs(
                        kinds.skip(i as int + 1),
                        fs_view(*factsheet),
                        feed.remaining(),
                    ));
                    assert(roster_remaining(kinds.skip(i as int), rem_pre)
                        == roster_remaining(kinds.skip(i as int + 1), feed.remaining()));
                    assert(match roster_failure(kinds.skip(i as int + 1), feed.remaining()) {
                        None => roster_failure(kinds.skip(i as int), rem_pre) is None,
                        Some(ke) => roster_failure(kinds.skip(i as int), rem_pre) == Some(
                            (ke.0 + 1, ke.1),
                        ),
                    });
                }
            },
            Err(e) => {
                proof {
                    assert(roster_failure(kinds.skip(i as int), rem_pre) == Some((0int, e)));
                    assert(roster_failure(kinds, rem0) == Some((i as int, e)));
                    assert(roster_remaining(kinds.skip(i as int), rem_pre) == step_remaining(
                        kinds[i as int],
                        rem_pre,
                    ));
                    assert(roster_fs(kinds.skip(i as int), fs_view(fs_pre), rem_pre)
                        == step_fs(kinds[i as int], fs_view(fs_pre), rem_pre));
                    assert forall|j: int| 0 <= j < i implies #[trigger] agents@[j]
                        .success_marks(*factsheet) by {
                        assert(pre[j].success_marks(fs_pre));
                        assert(agents@[j] == pre[j]);
                    }
                }
                return Err(e);
            },
        }
        i = i + 1;
    }
    proof {
        assert(kinds.skip(agents@.len() as int).len() == 0);
    }
    Ok(())
}

/// The orchestrator. It owns the fact sheet for the whole run and lends it
/// to exactly one agent at a time.
#[derive(Debug)]
pub struct ManagingAgent {
    pub attributes: BasicAgent,
    pub factsheet: FactSheet,
    pub agents: Vec<AgentVariant>,
    pub phase: OrchestratorPhase,
    pub code_template: String,
}

impl ManagingAgent {
    /// Initializing: builds the orchestrator's own attributes, turns the
    /// raw user request into the project description through one task
    /// request, and starts with an empty fact sheet and an empty roster.
    /// The description is set here, once, before any agent can run.
    pub fn new(usr_req: String, code_template: String, feed: &mut CompletionFeed) -> (r:
        Result<ManagingAgent, TransportError>)
        requires
            old(feed).wf(),
        ensures
            final(feed).wf(),
            final(feed).remaining() == old(feed).remaining().skip(
                request_consumed(old(feed).remaining()),
            ),
            match r {
                Ok(ma) => {
                    &&& request_result(old(feed).remaining()) == Some(
                        ma.factsheet.project_description@,
                    )
                    &&& ma.factsheet.project_scope is None
                    &&& ma.factsheet.external_urls is None
                    &&& ma.factsheet.backend_code is None
                    &&& ma.factsheet.api_endpoint_schema is None
                    &&& ma.agents@.len() == 0
                    &&& ma.phase == OrchestratorPhase::Initializing
                    &&& ma.attributes.position@ == "Project Manager"@
                    &&& ma.attributes.objective@
                        == "Gathers information and design solutions for website development"@
                    &&& ma.attributes.state == AgentState::Discovery
                    &&& ma.attributes.memory@ == Seq::<crate::llm::Message>::empty()
                    &&& ma.code_template == code_template
                },
                Err(_) => request_result(old(feed).remaining()) is None,
            },
    {
        let attributes = BasicAgent {
            objective: String::from_str(
                "Gathers information and design solutions for website development",
            ),
            position: String::from_str("Project Manager"),
            state: AgentState::Discovery,
            memory: Vec::new(),
        };
        let project_description = match ai_task_request(
            feed,
            usr_req,
            "Project Manager",
            "Defining user requirements",
            AiFunction::ConvertUserInputToGoal,
        ) {
            Ok(t) => t,
            Err(e) => {
                return Err(e);
            },
        };
        let factsheet = FactSheet {
            project_description,
            project_scope: None,
            external_urls: None,
            backend_code: None,
            api_endpoint_schema: None,
        };
        Ok(
            ManagingAgent {
                attributes,
                factsheet,
                agents: Vec::new(),
                phase: OrchestratorPhase::Initializing,
                code_template,
            },
        )
    }

    fn add_agent(&mut self, agent: AgentVariant)
        ensures
            final(self).agents@ == old(self).agents@.push(agent),
            final(self).factsheet == old(self).factsheet,
            final(self).attributes == old(self).attributes,
            final(self).phase == old(self).phase,
            final(self).code_template == old(self).code_template,
    {
        self.agents.push(agent);
    }

    /// Transition to Running: populates the fixed roster in its
    /// dependency-respecting order, the architect's scope decisions before
    /// backend-code generation.
    fn create_agents(&mut self)
        ensures
            final(self).agents@.len() == old(self).agents@.len() + 2,
            forall|j: int|
                0 <= j < old(self).agents@.len() ==> final(self).agents@[j] == old(self).agents@[j],
            final(self).agents@[final(self).agents@.len() - 2].is_architect(),
            !final(self).agents@[final(self).agents@.len() - 1].is_architect(),
            roster_kinds(final(self).agents@) == roster_kinds(old(self).agents@) + seq![
                AgentKind::Architect,
                AgentKind::Backend,
            ],
            final(self).phase == OrchestratorPhase::Running,
            final(self).factsheet == old(self).factsheet,
            final(self).attributes == old(self).attributes,
            final(self).code_template == old(self).code_template,
    {
        self.add_agent(AgentVariant::Architect(AgentSolutionArchitect::new()));
        let template = self.code_template.clone();
        self.add_agent(AgentVariant::Backend(AgentBackendDeveloper::new(template)));
        self.phase = OrchestratorPhase::Running;
        proof {
            assert(roster_kinds(self.agents@) =~= roster_kinds(old(self).agents@) + seq![
                AgentKind::Architect,
                AgentKind::Backend,
            ]);
        }
    }

    /// Running to Completed: appends the fixed roster, architect before
    /// backend developer, and drives it in order. The whole run is a
    /// function of the recorded outcomes: the fact sheet ends as the
    /// roster's steps commit it, the project description is never
    /// overwritten, and the run ends Completed exactly when no step fails;
    /// the first failing step halts the run in Running with its error and
    /// whatever partial fact-sheet state exists.
    pub fn execute_project(&mut self, feed: &mut CompletionFeed) -> (r: Result<
        (),
        AgentStepError,
    >)
        requires
            old(feed).wf(),
        ensures
            final(feed).wf(),
            final(self).factsheet.project_description == old(self).factsheet.project_description,
            final(self).agents@.len() == old(self).agents@.len() + 2,
            final(self).code_template == old(self).code_template,
            ({
                let kinds = roster_kinds(old(self).agents@) + seq![
                    AgentKind::Architect,
                    AgentKind::Backend,
                ];
                let rem = old(feed).remaining();
                &&& fs_view(final(self).factsheet) == roster_fs(
                    kinds,
                    fs_view(old(self).factsheet),
                    rem,
                )
                &&& final(feed).remaining() == roster_remaining(kinds, rem)
                &&& match roster_failure(kinds, rem) {
                    None => {
                        &&& r == Ok::<(), AgentStepError>(())
                        &&& final(self).phase == OrchestratorPhase::Completed
                        &&& final(self).factsheet.project_scope is Some
                        &&& final(self).factsheet.backend_code is Some
                        &&& final(self).factsheet.api_endpoint_schema is Some
                        &&& forall|i: int|
                            0 <= i < final(self).agents@.len() ==> #[trigger] final(self).agents@[i].state() == AgentState::Finished
                    },
                    Some(ke) => {
                        &&& r == Err::<(), AgentStepError>(ke.1)
                        &&& final(self).phase == OrchestratorPhase::Running
                    },
                }
            }),
    {
        self.create_agents();
        let r = run_roster(&mut self.agents, &mut self.factsheet, feed);
        match r {
            Ok(()) => {
                proof {
                    let n = self.agents@.len() as int;
                    assert(self.agents@[n - 2].is_architect());
                    assert(!self.agents@[n - 1].is_architect());
                    assert(self.agents@[n - 2].success_marks(self.factsheet));
                    assert(self.agents@[n - 1].success_marks(self.factsheet));
                    assert(self.factsheet.project_scope is Some);
                    assert(self.factsheet.backend_code is Some);
                    assert(self.factsheet.api_endpoint_schema is Some);
                }
                self.phase = OrchestratorPhase::Completed;
                Ok(())
            },
            Err(e) => Err(e),
        }
    }
}

} // verus!
