//! The conversation loop, as a state machine: it decides, and whoever
//! drives it talks to the model provider and performs the tools' outside
//! work, handing back what came of it.

use crate::effects::{Dispatch, Effect, Outcome};
use crate::message::{Message, Role, ToolCallRequest};
use crate::process::ProcessManager;
use crate::registers::{RegisterEntry, RegisterStore};
use crate::result::ToolResult;
use crate::registry::Registry;
use vstd::prelude::*;

verus! {

/// Why a run failed.
#[derive(Debug)]
pub enum LoopError {
    /// The model was called this many times without a final answer.
    MaxIterationsExceeded(usize),
    /// The provider failed or answered with something unreadable; its
    /// message, verbatim.
    Provider(String),
}

impl LoopError {
    /// The error as reported to the run's caller.
    pub fn message(&self) -> (r: String)
        ensures
            r@ == match self {
                LoopError::MaxIterationsExceeded(n) => "Max iterations ("@ + crate::text::decimal(*n as nat)
                    + ") reached"@,
                LoopError::Provider(e) => e@,
            },
    {
        match self {
            LoopError::MaxIterationsExceeded(n) => {
                let mut r = String::from_str("Max iterations (");
                let digits = crate::text::decimal_text(*n as u64);
                r.append(digits.as_str());
                r.append(") reached");
                r
            },
            LoopError::Provider(e) => e.clone(),
        }
    }
}

/// What the model answered: a final text, or tool calls to make.
#[derive(Debug)]
pub struct ModelReply {
    pub content: Option<String>,
    pub tool_calls: Vec<ToolCallRequest>,
}

/// What the driver of a run does next.
#[derive(Debug)]
pub enum Step {
    /// Send the transcript and the catalog to the model, then hand back its
    /// reply or its failure.
    CallModel,
    /// Perform this work, then hand back its outcome.
    Perform(Effect),
    /// The run ended with this answer.
    Finished(String),
    /// The run failed.
    Failed(LoopError),
}

/// Where a run stands.
#[derive(Clone, Copy, Debug, PartialEq, Eq, Structural)]
pub enum Phase {
    Ready,
    Dispatching,
    AwaitingModel,
    AwaitingOutcome,
    Finished,
    Failed,
}

/// `m` is the tool message that answers call `c`.
pub open spec fn answers(m: Message, c: ToolCallRequest) -> bool {
    &&& m.role == Role::Tool
    &&& m.tool_call_id == Some(c.id)
    &&& m.name == Some(c.name)
}

/// `m` is the assistant message that carries exactly `calls`, in order.
pub open spec fn carries(m: Message, calls: Seq<ToolCallRequest>) -> bool {
    &&& m.role == Role::Assistant
    &&& m.tool_calls matches Some(v) && v@ == calls
}

fn copy_call(c: &ToolCallRequest) -> (r: ToolCallRequest)
    ensures
        r == *c,
{
    ToolCallRequest { id: c.id.clone(), name: c.name.clone(), arguments: c.arguments.clone() }
}

fn copy_calls(v: &Vec<ToolCallRequest>) -> (r: Vec<ToolCallRequest>)
    ensures
        r@ == v@,
{
    let mut r: Vec<ToolCallRequest> = Vec::new();
    let mut i: usize = 0;
    while i < v.len()
        invariant
            i <= v@.len(),
            r@ == v@.subrange(0, i as int),
        decreases v@.len() - i,
    {
        r.push(copy_call(&v[i]));
        assert(r@ =~= v@.subrange(0, i + 1));
        i = i + 1;
    }
    assert(v@.subrange(0, v@.len() as int) =~= v@);
    r
}

fn copy_texts(v: &Vec<String>) -> (r: Vec<String>)
    ensures
        r@ == v@,
{
    let mut r: Vec<String> = Vec::new();
    let mut i: usize = 0;
    while i < v.len()
        invariant
            i <= v@.len(),
            r@ == v@.subrange(0, i as int),
        decreases v@.len() - i,
    {
        r.push(v[i].clone());
        assert(r@ =~= v@.subrange(0, i + 1));
        i = i + 1;
    }
    assert(v@.subrange(0, v@.len() as int) =~= v@);
    r
}

/// `a` and `b` ask for the same work.
pub open spec fn same_work(a: Effect, b: Effect) -> bool {
    match (a, b) {
        (Effect::Run { program: p, args: x }, Effect::Run { program: q, args: y }) => p == q && x@ == y@,
        (Effect::Run { .. }, _) => false,
        _ => a == b,
    }
}

fn copy_effect(e: &Effect) -> (r: Effect)
    ensures
        same_work(r, *e),
{
    match e {
        Effect::ReadFile { path } => Effect::ReadFile { path: path.clone() },
        Effect::WriteFile { path, content } => Effect::WriteFile { path: path.clone(), content: content.clone() },
        Effect::ListDir { path } => Effect::ListDir { path: path.clone() },
        Effect::Shell { command, timeout_secs } => Effect::Shell { command: command.clone(), timeout_secs: *timeout_secs },
        Effect::Spawn { command, id } => Effect::Spawn { command: command.clone(), id: *id },
        Effect::Kill { id } => Effect::Kill { id: *id },
        Effect::Run { program, args } => Effect::Run { program: program.clone(), args: copy_texts(args) },
    }
}

/// Calls `from`, `from + 1`, ... of `calls` were dispatched one after
/// another and each answered at once: call `from + j` went from registers
/// `regs[j]` and table `tables[j]` to `regs[j + 1]` and `tables[j + 1]`, and
/// the text of its result `results[j]` is its tool message.
pub open spec fn answered_in_turn(
    registry: Registry,
    calls: Seq<ToolCallRequest>,
    transcript: Seq<Message>,
    turn_start: int,
    from: int,
    regs: Seq<Seq<RegisterEntry>>,
    tables: Seq<ProcessManager>,
    results: Seq<ToolResult>,
) -> bool {
    &&& regs.len() == results.len() + 1
    &&& tables.len() == results.len() + 1
    &&& forall|j: int|
        0 <= j < results.len() ==> registry.dispatched(
            calls[from + j],
            regs[j],
            regs[j + 1],
            tables[j],
            tables[j + 1],
            Dispatch::Done(#[trigger] results[j]),
        ) && transcript[turn_start + 1 + from + j].content == Some(results[j].text)
}

/// From registers `regs0` and table `table0`, the calls of `run`'s turn
/// from `from` on were dispatched in order, each in the state the one
/// before left: those answered at once hold their results, and when `r`
/// hands out work, it is the work that dispatching the next call decided,
/// in the state reached.
pub open spec fn turn_continued(
    registry: Registry,
    run: AgentRun,
    table: ProcessManager,
    r: Step,
    from: int,
    regs0: Seq<RegisterEntry>,
    table0: ProcessManager,
) -> bool {
    exists|regs: Seq<Seq<RegisterEntry>>, tables: Seq<ProcessManager>, results: Seq<ToolResult>|
        #[trigger] answered_in_turn(
            registry,
            run.turn_calls(),
            run.transcript(),
            run.turn_start(),
            from,
            regs,
            tables,
            results,
        ) && results.len() == run.answered() - from && regs[0] == regs0 && tables[0] == table0 && match r {
            Step::Perform(_) => registry.dispatched(
                run.turn_calls()[run.answered() as int],
                regs.last(),
                run.spec_registers().entries(),
                tables.last(),
                table,
                Dispatch::Needs(run.work()),
            ),
            _ => regs.last() == run.spec_registers().entries() && tables.last() == table,
        }
}

/// Once every call of a turn is answered: the next model call while the
/// bound allows, else the bound's failure.
pub open spec fn next_turn_step(model_calls: nat, bound: nat, r: Step) -> bool {
    if model_calls < bound {
        r is CallModel
    } else {
        r matches Step::Failed(LoopError::MaxIterationsExceeded(n)) && n == bound
    }
}

/// One run of the conversation loop.
pub struct AgentRun {
    messages: Vec<Message>,
    max_iterations: usize,
    iterations: usize,
    calls: Vec<ToolCallRequest>,
    turn_start: usize,
    answered: usize,
    in_flight: Option<Effect>,
    registers: RegisterStore,
    phase: Phase,
}

impl AgentRun {
    /// The transcript so far.
    pub closed spec fn transcript(&self) -> Seq<Message> {
        self.messages@
    }

    /// How many times the model was called.
    pub closed spec fn model_calls(&self) -> nat {
        self.iterations as nat
    }

    /// The bound on model calls.
    pub closed spec fn bound(&self) -> nat {
        self.max_iterations as nat
    }

    /// The tool calls of the latest turn that had some.
    pub closed spec fn turn_calls(&self) -> Seq<ToolCallRequest> {
        self.calls@
    }

    /// Where that turn's assistant message stands in the transcript.
    pub closed spec fn turn_start(&self) -> int {
        self.turn_start as int
    }

    /// How many of that turn's calls have been answered.
    pub closed spec fn answered(&self) -> nat {
        self.answered as nat
    }

    /// Where the run stands.
    pub closed spec fn phase(&self) -> Phase {
        self.phase
    }

    /// The registers of this run.
    pub closed spec fn spec_registers(&self) -> RegisterStore {
        self.registers
    }

    /// The system prompt and the user query open the transcript; the model
    /// was called at most `bound` times; the latest turn with tool calls is
    /// its assistant message followed by one tool message per answered call,
    /// in the order of the calls.
    pub open spec fn wf(&self) -> bool {
        &&& self.transcript().len() >= 2
        &&& self.transcript()[0].role == Role::System
        &&& self.transcript()[1].role == Role::User
        &&& self.model_calls() <= self.bound()
        &&& self.answered() <= self.turn_calls().len()
        &&& self.turn_calls().len() > 0 ==> {
            &&& 2 <= self.turn_start()
            &&& self.transcript().len() == self.turn_start() + 1 + self.answered()
            &&& carries(self.transcript()[self.turn_start()], self.turn_calls())
            &&& forall|k: int|
                0 <= k < self.answered() ==> answers(
                    #[trigger] self.transcript()[self.turn_start() + 1 + k],
                    self.turn_calls()[k],
                )
        }
        &&& self.phase() == Phase::AwaitingOutcome ==> self.answered() < self.turn_calls().len()
            && self.turn_calls().len() > 0
        &&& self.phase() == Phase::Ready ==> self.model_calls() == 0 && self.turn_calls().len() == 0
        &&& self.phase() == Phase::AwaitingOutcome <==> self.has_work_in_flight()
    }

    /// Work was handed out and its outcome is awaited.
    pub closed spec fn has_work_in_flight(&self) -> bool {
        self.in_flight is Some
    }

    /// The work handed out last.
    pub closed spec fn work(&self) -> Effect {
        self.in_flight->0
    }

    /// A run seeded with the system prompt, then the user query.
    pub fn new(system_prompt: String, user_query: String, max_iterations: usize) -> (r: AgentRun)
        ensures
            r.wf(),
            r.phase() == Phase::Ready,
            r.transcript().len() == 2,
            r.transcript()[0] == (Message {
                role: Role::System,
                content: Some(system_prompt),
                tool_calls: None,
                tool_call_id: None,
                name: None,
            }),
            r.transcript()[1] == (Message {
                role: Role::User,
                content: Some(user_query),
                tool_calls: None,
                tool_call_id: None,
                name: None,
            }),
            r.model_calls() == 0,
            r.bound() == max_iterations,
    {
        let messages = vec![Message::text(Role::System, system_prompt), Message::text(Role::User, user_query)];
        AgentRun {
            messages,
            max_iterations,
            iterations: 0,
            calls: Vec::new(),
            turn_start: 0,
            answered: 0,
            in_flight: None,
            registers: RegisterStore::new(),
            phase: Phase::Ready,
        }
    }

    /// The transcript so far.
    pub fn messages(&self) -> (r: &Vec<Message>)
        ensures
            r@ == self.transcript(),
    {
        &self.messages
    }

    /// The registers of this run.
    pub fn registers(&self) -> (r: &RegisterStore)
        ensures
            *r == self.spec_registers(),
    {
        &self.registers
    }

    /// How many times the model was called.
    pub fn iterations(&self) -> (r: usize)
        ensures
            r == self.model_calls(),
    {
        self.iterations
    }

    /// Where the run stands.
    pub fn current_phase(&self) -> (r: Phase)
        ensures
            r == self.phase(),
    {
        self.phase
    }

    /// Starts the next turn: calls the model while the bound allows, and
    /// fails otherwise.
    fn next_turn(&mut self) -> (r: Step)
        requires
            old(self).wf(),
            old(self).phase() != Phase::AwaitingOutcome,
            old(self).answered() == old(self).turn_calls().len(),
        ensures
            final(self).wf(),
            final(self).transcript() == old(self).transcript(),
            final(self).turn_calls() == old(self).turn_calls(),
            final(self).answered() == old(self).answered(),
            final(self).turn_start() == old(self).turn_start(),
            final(self).bound() == old(self).bound(),
            final(self).spec_registers() == old(self).spec_registers(),
            if old(self).model_calls() < old(self).bound() {
                &&& r is CallModel
                &&& final(self).model_calls() == old(self).model_calls() + 1
                &&& final(self).phase() == Phase::AwaitingModel
            } else {
                &&& r matches Step::Failed(LoopError::MaxIterationsExceeded(n)) && n == old(self).bound()
                &&& final(self).model_calls() == old(self).model_calls()
                &&& final(self).phase() == Phase::Failed
            },
    {
        if self.iterations < self.max_iterations {
            self.iterations = self.iterations + 1;
            self.phase = Phase::AwaitingModel;
            Step::CallModel
        } else {
            self.phase = Phase::Failed;
            Step::Failed(LoopError::MaxIterationsExceeded(self.max_iterations))
        }
    }

    /// Starts the run: the first model call, unless the bound is zero.
    pub fn start(&mut self) -> (r: Step)
        requires
            old(self).wf(),
            old(self).phase() == Phase::Ready,
        ensures
            final(self).wf(),
            final(self).transcript() == old(self).transcript(),
            final(self).bound() == old(self).bound(),
            if old(self).bound() > 0 {
                r is CallModel && final(self).model_calls() == 1 && final(self).phase() == Phase::AwaitingModel
            } else {
                r matches Step::Failed(LoopError::MaxIterationsExceeded(n)) && n == 0 && final(self).phase()
                    == Phase::Failed
            },
    {
        self.next_turn()
    }

    /// Dispatches the calls of the current turn that are not answered yet,
    /// in order, each answer appended as it comes; stops at the first that
    /// needs outside work, and starts the next turn once all are answered.
    fn dispatch_pending(&mut self, registry: &Registry, procs: &mut ProcessManager) -> (r: Step)
        requires
            old(self).wf(),
            old(self).phase() != Phase::AwaitingOutcome,
            old(self).turn_calls().len() > 0,
            old(procs).wf(),
        ensures
            final(self).wf(),
            final(procs).wf(),
            old(self).transcript().is_prefix_of(final(self).transcript()),
            final(self).turn_calls() == old(self).turn_calls(),
            final(self).turn_start() == old(self).turn_start(),
            final(self).bound() == old(self).bound(),
            old(self).answered() <= final(self).answered(),
            old(self).model_calls() <= final(self).model_calls() <= old(self).model_calls() + 1,
            r is Perform ==> final(self).phase() == Phase::AwaitingOutcome,
            r matches Step::Perform(w) ==> same_work(w, final(self).work()),
            turn_continued(
                *registry,
                *final(self),
                *final(procs),
                r,
                old(self).answered() as int,
                old(self).spec_registers().entries(),
                *old(procs),
            ),
            !(r is Perform) ==> next_turn_step(old(self).model_calls(), old(self).bound(), r),
            r is CallModel ==> final(self).phase() == Phase::AwaitingModel,
            r is Failed ==> final(self).phase() == Phase::Failed,
            !(r is Finished),
            r is CallModel ==> final(self).model_calls() == old(self).model_calls() + 1,
            !(r is CallModel) ==> final(self).model_calls() == old(self).model_calls(),
            r matches Step::Failed(LoopError::MaxIterationsExceeded(n)) ==> n == final(self).bound()
                && final(self).model_calls() == final(self).bound(),
            !(r is Perform) ==> final(self).answered() == final(self).turn_calls().len(),
            r is Perform ==> final(self).answered() < final(self).turn_calls().len(),
    {
        let ghost regs_t: Seq<Seq<RegisterEntry>> = seq![self.registers.entries()];
        let ghost tables_t: Seq<ProcessManager> = seq![*procs];
        let ghost results_t: Seq<ToolResult> = Seq::empty();
        while self.answered < self.calls.len()
            invariant_except_break
                self.phase != Phase::AwaitingOutcome,
            invariant
                self.wf(),
                procs.wf(),
                self.turn_calls().len() > 0,
                old(self).transcript().is_prefix_of(self.transcript()),
                self.turn_calls() == old(self).turn_calls(),
                self.turn_start() == old(self).turn_start(),
                self.bound() == old(self).bound(),
                self.model_calls() == old(self).model_calls(),
                old(self).answered() <= self.answered(),
                answered_in_turn(
                    *registry,
                    self.turn_calls(),
                    self.transcript(),
                    self.turn_start(),
                    old(self).answered() as int,
                    regs_t,
                    tables_t,
                    results_t,
                ),
                results_t.len() == self.answered() - old(self).answered(),
                regs_t[0] == old(self).spec_registers().entries(),
                tables_t[0] == *old(procs),
                regs_t.last() == self.spec_registers().entries(),
                tables_t.last() == *procs,
            ensures
                self.wf(),
                procs.wf(),
                old(self).transcript().is_prefix_of(self.transcript()),
                self.turn_calls() == old(self).turn_calls(),
                self.turn_start() == old(self).turn_start(),
                self.bound() == old(self).bound(),
                self.model_calls() == old(self).model_calls(),
                old(self).answered() <= self.answered(),
                answered_in_turn(
                    *registry,
                    self.turn_calls(),
                    self.transcript(),
                    self.turn_start(),
                    old(self).answered() as int,
                    regs_t,
                    tables_t,
                    results_t,
                ),
                results_t.len() == self.answered() - old(self).answered(),
                regs_t[0] == old(self).spec_registers().entries(),
                tables_t[0] == *old(procs),
                regs_t.last() == self.spec_registers().entries(),
                tables_t.last() == *procs,
                self.answered == self.calls@.len(),
                self.phase != Phase::AwaitingOutcome,
            decreases self.calls@.len() - self.answered,
        {
            let i = self.answered;
            let ghost r0 = self.registers.entries();
            let ghost t0 = *procs;
            let d = registry.dispatch(&self.calls[i], &mut self.registers, procs);
            match d {
                Dispatch::Done(result) => {
                    let ghost res = result;
                    let call = &self.calls[i];
                    let m = Message {
                        role: Role::Tool,
                        content: Some(result.text),
                        tool_calls: None,
                        tool_call_id: Some(call.id.clone()),
                        name: Some(call.name.clone()),
                    };
                    let ghost before = self.messages@;
                    self.messages.push(m);
                    self.answered = i + 1;
                    proof {
                        assert(before.is_prefix_of(self.messages@));
                        assert(self.messages@[self.turn_start + 1 + i] == m);
                        assert forall|k: int| 0 <= k < self.answered() implies answers(
                            #[trigger] self.transcript()[self.turn_start() + 1 + k],
                            self.turn_calls()[k],
                        ) by {
                            if k < i {
                                assert(self.messages@[self.turn_start + 1 + k] == before[self.turn_start + 1 + k]);
                            }
                        }
                        let ghost_regs = regs_t.push(self.registers.entries());
                        let ghost_tables = tables_t.push(*procs);
                        let ghost_results = results_t.push(res);
                        let from = old(self).answered() as int;
                        assert forall|j: int| 0 <= j < ghost_results.len() implies registry.dispatched(
                            self.turn_calls()[from + j],
                            ghost_regs[j],
                            ghost_regs[j + 1],
                            ghost_tables[j],
                            ghost_tables[j + 1],
                            Dispatch::Done(#[trigger] ghost_results[j]),
                        ) && self.transcript()[self.turn_start() + 1 + from + j].content == Some(ghost_results[j].text) by {
                            if j < results_t.len() {
                                assert(results_t[j] == ghost_results[j]);
                                assert(self.messages@[self.turn_start + 1 + from + j] == before[self.turn_start + 1 + from + j]);
                            }
                        }
                        regs_t = ghost_regs;
                        tables_t = ghost_tables;
                        results_t = ghost_results;
                    }
                },
                Dispatch::Needs(effect) => {
                    let work = copy_effect(&effect);
                    self.in_flight = Some(effect);
                    self.phase = Phase::AwaitingOutcome;
                    assert(same_work(work, self.work()));
                    assert(registry.dispatched(self.calls@[i as int], r0, self.registers.entries(), t0, *procs, Dispatch::Needs(self.work())));
                    assert(answered_in_turn(*registry, self.turn_calls(), self.transcript(), self.turn_start(), old(self).answered() as int, regs_t, tables_t, results_t));
                    return Step::Perform(work);
                },
            }
        }
        self.next_turn()
    }

    /// The model answered. Without tool calls its content is the final
    /// answer. With tool calls, one assistant message carrying exactly those
    /// calls is appended, then the calls are dispatched in the order given.
    pub fn on_model_reply(&mut self, reply: ModelReply, registry: &Registry, procs: &mut ProcessManager) -> (r: Step)
        requires
            old(self).wf(),
            old(self).phase() == Phase::AwaitingModel,
            old(procs).wf(),
        ensures
            final(self).wf(),
            final(procs).wf(),
            old(self).transcript().is_prefix_of(final(self).transcript()),
            final(self).bound() == old(self).bound(),
            old(self).model_calls() <= final(self).model_calls() <= old(self).model_calls() + 1,
            reply.tool_calls@.len() == 0 ==> {
                &&& r matches Step::Finished(answer) && answer@ == match reply.content {
                    Some(c) => c@,
                    None => Seq::empty(),
                }
                &&& final(self).transcript() == old(self).transcript()
                &&& final(self).phase() == Phase::Finished
            },
            reply.tool_calls@.len() > 0 ==> {
                &&& final(self).turn_calls() == reply.tool_calls@
                &&& final(self).turn_start() == old(self).transcript().len()
                &&& carries(final(self).transcript()[old(self).transcript().len() as int], reply.tool_calls@)
                &&& final(self).transcript()[old(self).transcript().len() as int].content == reply.content
                &&& final(self).transcript()[old(self).transcript().len() as int].tool_call_id is None
                &&& final(self).transcript()[old(self).transcript().len() as int].name is None
                &&& !(r is Finished)
                &&& turn_continued(
                    *registry,
                    *final(self),
                    *final(procs),
                    r,
                    0,
                    old(self).spec_registers().entries(),
                    *old(procs),
                )
                &&& !(r is Perform) ==> next_turn_step(old(self).model_calls(), old(self).bound(), r)
            },
            r is CallModel ==> final(self).model_calls() == old(self).model_calls() + 1,
            !(r is CallModel) ==> final(self).model_calls() == old(self).model_calls(),
            r matches Step::Failed(LoopError::MaxIterationsExceeded(n)) ==> n == final(self).bound()
                && final(self).model_calls() == final(self).bound(),
            (r is CallModel || r is Failed) && final(self).turn_calls().len() > 0 ==> final(self).answered()
                == final(self).turn_calls().len(),
            r is Perform ==> final(self).answered() < final(self).turn_calls().len(),
            r matches Step::Perform(w) ==> same_work(w, final(self).work()),
    {
        if reply.tool_calls.len() == 0 {
            self.phase = Phase::Finished;
            let answer = match reply.content {
                Some(c) => c,
                None => String::new(),
            };
            return Step::Finished(answer);
        }
        let calls = reply.tool_calls;
        let m = Message {
            role: Role::Assistant,
            content: reply.content,
            tool_calls: Some(copy_calls(&calls)),
            tool_call_id: None,
            name: None,
        };
        let ghost before = self.messages@;
        self.turn_start = self.messages.len();
        self.messages.push(m);
        self.calls = calls;
        self.answered = 0;
        self.phase = Phase::Dispatching;
        proof {
            assert(before.is_prefix_of(self.messages@));
        }
        let r = self.dispatch_pending(registry, procs);
        r
    }

    /// The work of the current call came back: its result is appended as
    /// the call's tool message, and dispatch goes on with the next call.
    pub fn on_outcome(&mut self, outcome: Outcome, registry: &Registry, procs: &mut ProcessManager) -> (r: Step)
        requires
            old(self).wf(),
            old(self).phase() == Phase::AwaitingOutcome,
            old(procs).wf(),
        ensures
            final(self).wf(),
            final(procs).wf(),
            old(self).transcript().is_prefix_of(final(self).transcript()),
            final(self).transcript().len() > old(self).transcript().len(),
            final(self).turn_calls() == old(self).turn_calls(),
            final(self).bound() == old(self).bound(),
            old(self).model_calls() <= final(self).model_calls() <= old(self).model_calls() + 1,
            !(r is Finished),
            ({
                let call = old(self).turn_calls()[old(self).answered() as int];
                exists|res: crate::result::ToolResult, mid: ProcessManager|
                    crate::registry::completed(
                        crate::registry::kind_of_name(call.name@),
                        crate::args::decoded_args(call.arguments@),
                        old(self).work(),
                        outcome,
                        *old(procs),
                        mid,
                        res,
                    ) && final(self).transcript()[old(self).transcript().len() as int].content == Some(res.text)
            }),
            ({
                let call = old(self).turn_calls()[old(self).answered() as int];
                exists|res: crate::result::ToolResult, mid: ProcessManager|
                    crate::registry::completed(
                        crate::registry::kind_of_name(call.name@),
                        crate::args::decoded_args(call.arguments@),
                        old(self).work(),
                        outcome,
                        *old(procs),
                        mid,
                        res,
                    ) && turn_continued(
                        *registry,
                        *final(self),
                        *final(procs),
                        r,
                        (old(self).answered() + 1) as int,
                        old(self).spec_registers().entries(),
                        mid,
                    )
            }),
            !(r is Perform) ==> next_turn_step(old(self).model_calls(), old(self).bound(), r),
            r is CallModel ==> final(self).model_calls() == old(self).model_calls() + 1,
            !(r is CallModel) ==> final(self).model_calls() == old(self).model_calls(),
            r matches Step::Failed(LoopError::MaxIterationsExceeded(n)) ==> n == final(self).bound()
                && final(self).model_calls() == final(self).bound(),
            (r is CallModel || r is Failed) && final(self).turn_calls().len() > 0 ==> final(self).answered()
                == final(self).turn_calls().len(),
            r is Perform ==> final(self).answered() < final(self).turn_calls().len(),
            r matches Step::Perform(w) ==> same_work(w, final(self).work()),
    {
        let i = self.answered;
        let n = self.calls.len();
        assert(i < n);
        let effect = self.in_flight.take().unwrap();
        let result = registry.complete(&self.calls[i], &effect, outcome, procs);
        let ghost mid = *procs;
        let ghost res = result;
        let call = &self.calls[i];
        let m = Message {
            role: Role::Tool,
            content: Some(result.text),
            tool_calls: None,
            tool_call_id: Some(call.id.clone()),
            name: Some(call.name.clone()),
        };
        let ghost before = self.messages@;
        self.messages.push(m);
        self.answered = i + 1;
        self.phase = Phase::Dispatching;
        proof {
            assert(before.is_prefix_of(self.messages@));
            assert(self.messages@[self.turn_start + 1 + i] == m);
            assert forall|k: int| 0 <= k < self.answered() implies answers(
                #[trigger] self.transcript()[self.turn_start() + 1 + k],
                self.turn_calls()[k],
            ) by {
                if k < i {
                    assert(self.messages@[self.turn_start + 1 + k] == before[self.turn_start + 1 + k]);
                }
            }
        }
        let ghost at = before.len() as int;
        let r = self.dispatch_pending(registry, procs);
        assert(self.transcript()[at] == m);
        r
    }

    /// The provider failed: the run fails at once, with its message.
    pub fn on_model_error(&mut self, error: String) -> (r: Step)
        requires
            old(self).wf(),
        ensures
            final(self).wf(),
            final(self).transcript() == old(self).transcript(),
            final(self).phase() == Phase::Failed,
            r matches Step::Failed(LoopError::Provider(e)) && e == error,
    {
        self.phase = Phase::Failed;
        self.in_flight = None;
        Step::Failed(LoopError::Provider(error))
    }
}

/// In every state of a run, the latest turn's tool messages follow its
/// assistant message in the order of the calls, each naming its own call's
/// id; and the model was called at most `bound` times.
pub proof fn lemma_turn_transcript(run: AgentRun)
    requires
        run.wf(),
    ensures
        run.model_calls() <= run.bound(),
        run.turn_calls().len() > 0 ==> {
            &&& carries(run.transcript()[run.turn_start()], run.turn_calls())
            &&& forall|k: int|
                0 <= k < run.answered() ==> {
                    let m = #[trigger] run.transcript()[run.turn_start() + 1 + k];
                    m.role == Role::Tool && m.tool_call_id == Some(run.turn_calls()[k].id)
                }
        },
{
}

} // verus!
