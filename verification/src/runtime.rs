//! Agent execution with explicit tool boundaries, cancellation and audit events.
//!
//! The bounded tool loop is a state machine: the caller performs each action
//! (a model call, a tool run) and reports back what happened; the loop decides
//! what comes next and which audit events are due.

use vstd::prelude::*;

use crate::config::Config;
use crate::models::{ChatMessage, MessageRole, ModelError, ModelId, ModelReply, ToolCall, Usage};
use crate::permissions::PermissionError;
use crate::text::{is_blank, trims_to_empty};
use crate::tools::ToolError;

verus! {

/// The outcome of a run.
#[derive(Debug, Clone)]
pub struct RunResult {
    pub task_id: String,
    pub provider: String,
    pub model: String,
    pub message: String,
    pub usage: Usage,
}

/// Why a run ended without a result.
#[derive(Debug)]
pub enum RuntimeError {
    Model(ModelError),
    Permission(PermissionError),
    Tool(ToolError),
    Serialization(serde_json::Error),
    InvalidMaxSteps,
    MaxToolSteps(usize),
    Cancelled,
}

/// Runs prompts against one model of one provider.
pub struct AgentRuntime<P> {
    config: Config,
    provider: P,
    model: ModelId,
}

impl<P> AgentRuntime<P> {
    pub closed spec fn config_view(&self) -> Config {
        self.config
    }

    pub closed spec fn provider_view(&self) -> P {
        self.provider
    }

    pub closed spec fn model_view(&self) -> ModelId {
        self.model
    }

    pub fn new(config: Config, provider: P, model: ModelId) -> (r: Self)
        ensures
            r.config_view() == config,
            r.provider_view() == provider,
            r.model_view() == model,
    {
        AgentRuntime { config, provider, model }
    }

    /// The configured default agent.
    pub fn default_agent(&self) -> (r: &str)
        ensures
            r@ == self.config_view().default_agent@,
    {
        self.config.default_agent.as_str()
    }

    pub fn provider(&self) -> (r: &P)
        ensures
            *r == self.provider_view(),
    {
        &self.provider
    }

    pub fn model(&self) -> (r: &ModelId)
        ensures
            *r == self.model_view(),
    {
        &self.model
    }

    /// The result of a run that ended with `reply`: the provider's name, the
    /// answering model, the reply's text and usage.
    pub fn result_from_response(&self, task_id: String, provider_name: &str, reply: ModelReply) -> (r: RunResult)
        ensures
            r.task_id == task_id,
            r.provider@ == provider_name@,
            r.model == reply.model.0,
            r.message == reply.message.content,
            r.usage == reply.usage,
    {
        RunResult {
            task_id,
            provider: provider_name.to_owned(),
            model: reply.model.0,
            message: reply.message.content,
            usage: reply.usage,
        }
    }
}

/// What a streamed completion has produced so far: the text of its deltas
/// and the usage it reported on completion.
pub struct StreamTranscript {
    pub message: String,
    pub usage: Usage,
}

impl StreamTranscript {
    pub fn new() -> (t: Self)
        ensures
            t.message@.len() == 0,
            t.usage == (Usage { input_tokens: 0, output_tokens: 0 }),
    {
        StreamTranscript { message: String::new(), usage: Usage { input_tokens: 0, output_tokens: 0 } }
    }

    /// A delta extends the message.
    pub fn on_delta(&mut self, content: &str)
        ensures
            final(self).message@ == old(self).message@ + content@,
            final(self).usage == old(self).usage,
    {
        self.message.append(content);
    }

    /// Completion reports the usage of the whole stream.
    pub fn on_completed(&mut self, usage: Usage)
        ensures
            final(self).message == old(self).message,
            final(self).usage == usage,
    {
        self.usage = usage;
    }
}

/// `total` plus `usage` stays within `u64`.
pub open spec fn usage_fits(total: Usage, usage: Usage) -> bool {
    total.input_tokens + usage.input_tokens <= u64::MAX && total.output_tokens + usage.output_tokens
        <= u64::MAX
}

/// Adds one call's usage to a running total.
pub fn add_usage(total: &mut Usage, usage: &Usage)
    requires
        usage_fits(*old(total), *usage),
    ensures
        final(total).input_tokens == old(total).input_tokens + usage.input_tokens,
        final(total).output_tokens == old(total).output_tokens + usage.output_tokens,
{
    total.input_tokens = total.input_tokens + usage.input_tokens;
    total.output_tokens = total.output_tokens + usage.output_tokens;
}

/// Where a cancellation was noticed while waiting.
#[derive(Debug, Clone, Copy, PartialEq, Eq, Structural)]
pub enum CancelPoint {
    Model,
    Tool,
}

/// An audit event the loop owes; the caller adds the task id, arguments,
/// outputs and error texts it holds.
#[derive(Debug)]
pub enum AuditRecord {
    RunStarted { max_steps: usize, has_instructions: bool },
    ModelRequested { step: usize, messages: usize },
    RunCancelled { step: usize, during: Option<CancelPoint> },
    ToolRequested { id: String, name: String },
    ToolCompleted { id: String, name: String },
    ToolFailed { id: String, name: String },
    RunCompleted { input_tokens: u64, output_tokens: u64 },
    RunMaxSteps { max_steps: usize },
}

/// What the caller must do next.
#[derive(Debug)]
pub enum LoopAction {
    /// Call the model with the loop's messages.
    RequestModel,
    /// Run this tool call through the authorized executor.
    RunTool(ToolCall),
    /// Stop with this error.
    Fail(RuntimeError),
}

/// Where the loop stands.
#[derive(Debug, Clone, Copy, PartialEq, Eq, Structural)]
pub enum LoopPhase {
    NeedModel,
    AwaitingModel,
    NeedTool,
    AwaitingTool,
    Done,
}

/// The answer that ended a run.
#[derive(Debug)]
pub struct Completion {
    pub model: String,
    pub message: String,
    pub usage: Usage,
}

/// Total input tokens of a sequence of usages.
pub open spec fn sum_input(us: Seq<Usage>) -> int
    decreases us.len(),
{
    if us.len() == 0 {
        0
    } else {
        sum_input(us.drop_last()) + us.last().input_tokens
    }
}

/// Total output tokens of a sequence of usages.
pub open spec fn sum_output(us: Seq<Usage>) -> int
    decreases us.len(),
{
    if us.len() == 0 {
        0
    } else {
        sum_output(us.drop_last()) + us.last().output_tokens
    }
}

/// Instructions count when present and not blank.
pub open spec fn instructions_given(instructions: Option<&str>) -> bool {
    match instructions {
        Some(i) => !trims_to_empty(i@),
        None => false,
    }
}

/// The bounded, cancellable tool loop.
pub struct ToolLoop {
    max_steps: usize,
    step: usize,
    messages: Vec<ChatMessage>,
    usage: Usage,
    pending: Vec<ToolCall>,
    current: Option<(String, String)>,
    phase: LoopPhase,
    model_calls: Ghost<nat>,
    usages: Ghost<Seq<Usage>>,
}

impl ToolLoop {
    pub closed spec fn max_steps(&self) -> usize {
        self.max_steps
    }

    pub closed spec fn step(&self) -> usize {
        self.step
    }

    pub closed spec fn messages_view(&self) -> Seq<ChatMessage> {
        self.messages@
    }

    pub closed spec fn usage_view(&self) -> Usage {
        self.usage
    }

    pub closed spec fn pending_view(&self) -> Seq<ToolCall> {
        self.pending@
    }

    /// The name and id of the tool call being run.
    pub closed spec fn current_view(&self) -> Option<(String, String)> {
        self.current
    }

    pub closed spec fn phase_view(&self) -> LoopPhase {
        self.phase
    }

    /// How many model calls the loop has asked for.
    pub closed spec fn model_calls(&self) -> nat {
        self.model_calls@
    }

    /// The usage of every model reply received, in order.
    pub closed spec fn usages(&self) -> Seq<Usage> {
        self.usages@
    }

    #[verifier::type_invariant]
    closed spec fn loop_invariant(&self) -> bool {
        &&& 0 < self.max_steps
        &&& self.step <= self.max_steps
        &&& self.model_calls@ <= self.max_steps
        &&& self.usage.input_tokens == sum_input(self.usages@)
        &&& self.usage.output_tokens == sum_output(self.usages@)
        &&& match self.phase {
            LoopPhase::NeedModel => self.model_calls@ == self.step && self.usages@.len() == self.step,
            LoopPhase::AwaitingModel => self.model_calls@ == self.step + 1 && self.step < self.max_steps
                && self.usages@.len() == self.step,
            LoopPhase::NeedTool => self.model_calls@ == self.step + 1 && self.step < self.max_steps
                && self.pending@.len() > 0 && self.usages@.len() == self.step + 1,
            LoopPhase::AwaitingTool => self.model_calls@ == self.step + 1 && self.step < self.max_steps
                && self.current is Some && self.usages@.len() == self.step + 1,
            LoopPhase::Done => true,
        }
    }
}

/// Whether instructions were given (present and not blank).
pub fn has_instructions(instructions: Option<&str>) -> (r: bool)
    ensures
        r == instructions_given(instructions),
{
    match instructions {
        Some(i) => !is_blank(i),
        None => false,
    }
}

impl ToolLoop {
    /// Opens a run. `max_steps` must be positive, and a provider without tool
    /// calling cannot run with tools. The conversation starts with the
    /// instructions (when given) as a system message and the prompt as a user message.
    pub fn start(
        prompt: &str,
        instructions: Option<&str>,
        max_steps: usize,
        has_tools: bool,
        tool_calling: bool,
    ) -> (r: Result<(ToolLoop, AuditRecord), RuntimeError>)
        ensures
            max_steps == 0 <==> r matches Err(RuntimeError::InvalidMaxSteps),
            (max_steps > 0 && has_tools && !tool_calling) <==> (r matches Err(
                RuntimeError::Model(ModelError::Unsupported(s)),
            ) && s@ == "tool_calling"@),
            (max_steps > 0 && (!has_tools || tool_calling)) ==> r is Ok,
            r matches Ok((l, rec)) ==> {
                &&& l.max_steps() == max_steps
                &&& l.step() == 0
                &&& l.phase_view() == LoopPhase::NeedModel
                &&& l.model_calls() == 0
                &&& l.usages().len() == 0
                &&& l.usage_view() == Usage { input_tokens: 0, output_tokens: 0 }
                &&& rec == AuditRecord::RunStarted {
                    max_steps,
                    has_instructions: instructions_given(instructions),
                }
                &&& instructions_given(instructions) ==> {
                    &&& l.messages_view().len() == 2
                    &&& l.messages_view()[0].role == MessageRole::System
                    &&& l.messages_view()[0].content@ == instructions.unwrap()@
                    &&& l.messages_view()[1].role == MessageRole::User
                    &&& l.messages_view()[1].content@ == prompt@
                }
                &&& !instructions_given(instructions) ==> {
                    &&& l.messages_view().len() == 1
                    &&& l.messages_view()[0].role == MessageRole::User
                    &&& l.messages_view()[0].content@ == prompt@
                }
                &&& forall|i: int|
                    0 <= i < l.messages_view().len() ==> (#[trigger] l.messages_view()[i]).name is None
                        && l.messages_view()[i].tool_call_id is None
            },
    {
        if max_steps == 0 {
            return Err(RuntimeError::InvalidMaxSteps);
        }
        if has_tools && !tool_calling {
            return Err(RuntimeError::Model(ModelError::Unsupported("tool_calling".to_owned())));
        }
        let given = has_instructions(instructions);
        let mut messages: Vec<ChatMessage> = Vec::new();
        if given {
            messages.push(ChatMessage::new(MessageRole::System, instructions.unwrap()));
        }
        messages.push(ChatMessage::new(MessageRole::User, prompt));
        let l = ToolLoop {
            max_steps,
            step: 0,
            messages,
            usage: Usage { input_tokens: 0, output_tokens: 0 },
            pending: Vec::new(),
            current: None,
            phase: LoopPhase::NeedModel,
            model_calls: Ghost(0),
            usages: Ghost(Seq::empty()),
        };
        Ok((l, AuditRecord::RunStarted { max_steps, has_instructions: given }))
    }

    /// Whether the loop waits for `next`.
    pub fn ready(&self) -> (r: bool)
        ensures
            r == (self.phase_view() == LoopPhase::NeedModel || self.phase_view() == LoopPhase::NeedTool),
    {
        match self.phase {
            LoopPhase::NeedModel => true,
            LoopPhase::NeedTool => true,
            _ => false,
        }
    }

    pub fn phase(&self) -> (r: LoopPhase)
        ensures
            r == self.phase_view(),
    {
        self.phase
    }

    /// The conversation so far.
    pub fn messages(&self) -> (r: &Vec<ChatMessage>)
        ensures
            r@ == self.messages_view(),
    {
        &self.messages
    }

    /// Whether a reply's usage can be added to the running total.
    pub fn usage_fits(&self, usage: &Usage) -> (r: bool)
        ensures
            r == usage_fits(self.usage_view(), *usage),
    {
        self.usage.input_tokens <= u64::MAX - usage.input_tokens && self.usage.output_tokens
            <= u64::MAX - usage.output_tokens
    }

    /// Decides the next action. Before a model call: the step budget is
    /// checked first, then cancellation. Before each tool call: cancellation.
    pub fn next(self, cancelled: bool) -> (r: (ToolLoop, AuditRecord, LoopAction))
        requires
            self.phase_view() == LoopPhase::NeedModel || self.phase_view() == LoopPhase::NeedTool,
        ensures
            r.0.max_steps() == self.max_steps(),
            r.0.model_calls() <= r.0.max_steps(),
            r.0.usages() == self.usages(),
            r.0.usage_view() == self.usage_view(),
            r.0.messages_view() == self.messages_view(),
            r.0.step() == self.step(),
            self.phase_view() == LoopPhase::NeedModel ==> {
                if self.step() == self.max_steps() {
                    &&& r.1 == AuditRecord::RunMaxSteps { max_steps: self.max_steps() }
                    &&& r.2 matches LoopAction::Fail(RuntimeError::MaxToolSteps(n)) && n == self.max_steps()
                    &&& r.0.phase_view() == LoopPhase::Done
                    &&& r.0.model_calls() == self.model_calls()
                } else if cancelled {
                    &&& r.1 == AuditRecord::RunCancelled { step: self.step(), during: None }
                    &&& r.2 matches LoopAction::Fail(RuntimeError::Cancelled)
                    &&& r.0.phase_view() == LoopPhase::Done
                    &&& r.0.model_calls() == self.model_calls()
                } else {
                    &&& r.1 == AuditRecord::ModelRequested {
                        step: self.step(),
                        messages: self.messages_view().len() as usize,
                    }
                    &&& r.2 is RequestModel
                    &&& r.0.phase_view() == LoopPhase::AwaitingModel
                    &&& r.0.model_calls() == self.model_calls() + 1
                }
            },
            self.phase_view() == LoopPhase::NeedTool ==> {
                &&& r.0.model_calls() == self.model_calls()
                &&& if cancelled {
                    &&& r.1 == AuditRecord::RunCancelled {
                        step: self.step(),
                        during: Some(CancelPoint::Tool),
                    }
                    &&& r.2 matches LoopAction::Fail(RuntimeError::Cancelled)
                    &&& r.0.phase_view() == LoopPhase::Done
                } else {
                    let call = self.pending_view()[0];
                    &&& r.2 matches LoopAction::RunTool(c) && c == call
                    &&& r.1 matches AuditRecord::ToolRequested { id, name } && id == call.id && name
                        == call.name
                    &&& r.0.pending_view() == self.pending_view().drop_first()
                    &&& r.0.current_view() == Some((call.name, call.id))
                    &&& r.0.phase_view() == LoopPhase::AwaitingTool
                }
            },
    {
        proof {
            use_type_invariant(&self);
        }
        let ToolLoop {
            max_steps,
            step,
            messages,
            usage,
            mut pending,
            current,
            phase,
            model_calls,
            usages,
        } = self;
        match phase {
            LoopPhase::NeedModel => {
                if step == max_steps {
                    let l = ToolLoop {
                        max_steps,
                        step,
                        messages,
                        usage,
                        pending,
                        current,
                        phase: LoopPhase::Done,
                        model_calls,
                        usages,
                    };
                    return (
                        l,
                        AuditRecord::RunMaxSteps { max_steps },
                        LoopAction::Fail(RuntimeError::MaxToolSteps(max_steps)),
                    );
                }
                if cancelled {
                    let l = ToolLoop {
                        max_steps,
                        step,
                        messages,
                        usage,
                        pending,
                        current,
                        phase: LoopPhase::Done,
                        model_calls,
                        usages,
                    };
                    return (
                        l,
                        AuditRecord::RunCancelled { step, during: None },
                        LoopAction::Fail(RuntimeError::Cancelled),
                    );
                }
                let count = messages.len();
                let l = ToolLoop {
                    max_steps,
                    step,
                    messages,
                    usage,
                    pending,
                    current,
                    phase: LoopPhase::AwaitingModel,
                    model_calls: Ghost(model_calls@ + 1),
                    usages,
                };
                (l, AuditRecord::ModelRequested { step, messages: count }, LoopAction::RequestModel)
            },
            _ => {
                if cancelled {
                    let l = ToolLoop {
                        max_steps,
                        step,
                        messages,
                        usage,
                        pending,
                        current,
                        phase: LoopPhase::Done,
                        model_calls,
                        usages,
                    };
                    return (
                        l,
                        AuditRecord::RunCancelled { step, during: Some(CancelPoint::Tool) },
                        LoopAction::Fail(RuntimeError::Cancelled),
                    );
                }
                let ghost before = pending@;
                let call = pending.remove(0);
                assert(pending@ =~= before.drop_first());
                let record = AuditRecord::ToolRequested { id: call.id.clone(), name: call.name.clone() };
                let l = ToolLoop {
                    max_steps,
                    step,
                    messages,
                    usage,
                    pending,
                    current: Some((call.name.clone(), call.id.clone())),
                    phase: LoopPhase::AwaitingTool,
                    model_calls,
                    usages,
                };
                (l, record, LoopAction::RunTool(call))
            },
        }
    }
}

impl ToolLoop {
    /// Takes a model reply. Its usage joins the total. A reply without tool
    /// calls completes the run; otherwise its message joins the conversation
    /// and its tool calls are run next, in order.
    pub fn on_model_reply(self, reply: ModelReply) -> (r: (
        ToolLoop,
        Option<(AuditRecord, Completion)>,
    ))
        requires
            self.phase_view() == LoopPhase::AwaitingModel,
            usage_fits(self.usage_view(), reply.usage),
        ensures
            r.0.max_steps() == self.max_steps(),
            r.0.model_calls() == self.model_calls(),
            r.0.model_calls() <= r.0.max_steps(),
            r.0.step() == self.step(),
            r.0.usages() == self.usages().push(reply.usage),
            r.0.usage_view().input_tokens == sum_input(r.0.usages()),
            r.0.usage_view().output_tokens == sum_output(r.0.usages()),
            reply.tool_calls@.len() == 0 ==> {
                &&& r.1 matches Some((rec, c)) && c.model == reply.model.0 && c.message
                    == reply.message.content && c.usage == r.0.usage_view() && rec
                    == (AuditRecord::RunCompleted {
                    input_tokens: c.usage.input_tokens,
                    output_tokens: c.usage.output_tokens,
                })
                &&& r.0.phase_view() == LoopPhase::Done
                &&& r.0.messages_view() == self.messages_view()
            },
            reply.tool_calls@.len() > 0 ==> {
                &&& r.1 is None
                &&& r.0.messages_view() == self.messages_view().push(reply.message)
                &&& r.0.pending_view() == reply.tool_calls@
                &&& r.0.phase_view() == LoopPhase::NeedTool
            },
    {
        proof {
            use_type_invariant(&self);
        }
        let ToolLoop {
            max_steps,
            step,
            mut messages,
            mut usage,
            pending,
            current,
            phase,
            model_calls,
            usages,
        } = self;
        let ModelReply { model, message, tool_calls, usage: reply_usage } = reply;
        add_usage(&mut usage, &reply_usage);
        let ghost new_usages = usages@.push(reply_usage);
        assert(new_usages.drop_last() =~= usages@);
        if tool_calls.len() == 0 {
            let l = ToolLoop {
                max_steps,
                step,
                messages,
                usage,
                pending,
                current,
                phase: LoopPhase::Done,
                model_calls,
                usages: Ghost(new_usages),
            };
            let record = AuditRecord::RunCompleted {
                input_tokens: usage.input_tokens,
                output_tokens: usage.output_tokens,
            };
            return (l, Some((record, Completion { model: model.0, message: message.content, usage })));
        }
        messages.push(message);
        let l = ToolLoop {
            max_steps,
            step,
            messages,
            usage,
            pending: tool_calls,
            current,
            phase: LoopPhase::NeedTool,
            model_calls,
            usages: Ghost(new_usages),
        };
        (l, None)
    }

    /// Takes the output of the running tool call, already serialized. The call
    /// is recorded as completed; a serialization failure ends the run;
    /// otherwise the output joins the conversation as a tool message, and once
    /// the step's last call is done the next step begins.
    pub fn on_tool_output(self, output: Result<String, serde_json::Error>) -> (r: (
        ToolLoop,
        AuditRecord,
        Option<RuntimeError>,
    ))
        requires
            self.phase_view() == LoopPhase::AwaitingTool,
        ensures
            r.0.max_steps() == self.max_steps(),
            r.0.model_calls() == self.model_calls(),
            r.0.model_calls() <= r.0.max_steps(),
            r.0.usages() == self.usages(),
            r.0.usage_view() == self.usage_view(),
            self.current_view() matches Some((name, id)) && r.1 == (AuditRecord::ToolCompleted {
                id,
                name,
            }),
            output is Err ==> {
                &&& r.2 matches Some(RuntimeError::Serialization(_))
                &&& r.0.phase_view() == LoopPhase::Done
                &&& r.0.messages_view() == self.messages_view()
                &&& r.0.step() == self.step()
            },
            output matches Ok(content) ==> {
                &&& r.2 is None
                &&& self.current_view() matches Some((name, id)) && r.0.messages_view()
                    == self.messages_view().push(
                    (ChatMessage {
                        role: MessageRole::Tool,
                        content,
                        name: Some(name),
                        tool_call_id: Some(id),
                    }),
                )
                &&& r.0.pending_view() == self.pending_view()
                &&& self.pending_view().len() == 0 ==> r.0.step() == self.step() + 1
                    && r.0.phase_view() == LoopPhase::NeedModel
                &&& self.pending_view().len() > 0 ==> r.0.step() == self.step() && r.0.phase_view()
                    == LoopPhase::NeedTool
            },
    {
        proof {
            use_type_invariant(&self);
        }
        let ToolLoop {
            max_steps,
            step,
            mut messages,
            usage,
            pending,
            current,
            phase,
            model_calls,
            usages,
        } = self;
        let (name, id) = match current {
            Some(c) => c,
            None => {
                assert(false);
                (String::new(), String::new())
            },
        };
        let record = AuditRecord::ToolCompleted { id: id.clone(), name: name.clone() };
        match output {
            Err(e) => {
                let l = ToolLoop {
                    max_steps,
                    step,
                    messages,
                    usage,
                    pending,
                    current: Some((name, id)),
                    phase: LoopPhase::Done,
                    model_calls,
                    usages,
                };
                (l, record, Some(RuntimeError::Serialization(e)))
            },
            Ok(content) => {
                messages.push(ChatMessage::tool(name, id, content));
                if pending.len() == 0 {
                    let l = ToolLoop {
                        max_steps,
                        step: step + 1,
                        messages,
                        usage,
                        pending,
                        current: None,
                        phase: LoopPhase::NeedModel,
                        model_calls,
                        usages,
                    };
                    (l, record, None)
                } else {
                    let l = ToolLoop {
                        max_steps,
                        step,
                        messages,
                        usage,
                        pending,
                        current: None,
                        phase: LoopPhase::NeedTool,
                        model_calls,
                        usages,
                    };
                    (l, record, None)
                }
            },
        }
    }

    /// The running tool call failed (its permission was refused or the tool
    /// failed): it is recorded as failed and the run ends with that error.
    pub fn on_tool_error(self, error: RuntimeError) -> (r: (
        ToolLoop,
        AuditRecord,
        RuntimeError,
    ))
        requires
            self.phase_view() == LoopPhase::AwaitingTool,
        ensures
            r.0.phase_view() == LoopPhase::Done,
            r.0.model_calls() == self.model_calls(),
            r.0.model_calls() <= r.0.max_steps(),
            r.2 == error,
            self.current_view() matches Some((name, id)) && r.1 == (AuditRecord::ToolFailed {
                id,
                name,
            }),
    {
        proof {
            use_type_invariant(&self);
        }
        let ToolLoop {
            max_steps,
            step,
            messages,
            usage,
            pending,
            current,
            phase,
            model_calls,
            usages,
        } = self;
        let record = match &current {
            Some(c) => AuditRecord::ToolFailed { id: c.1.clone(), name: c.0.clone() },
            None => {
                assert(false);
                AuditRecord::ToolFailed { id: String::new(), name: String::new() }
            },
        };
        let l = ToolLoop {
            max_steps,
            step,
            messages,
            usage,
            pending,
            current,
            phase: LoopPhase::Done,
            model_calls,
            usages,
        };
        (l, record, error)
    }

    /// Cancellation was noticed while waiting on the model or on a tool.
    pub fn on_cancelled(self, during: CancelPoint) -> (r: (
        ToolLoop,
        AuditRecord,
        RuntimeError,
    ))
        requires
            (during == CancelPoint::Model && self.phase_view() == LoopPhase::AwaitingModel) || (
            during == CancelPoint::Tool && self.phase_view() == LoopPhase::AwaitingTool),
        ensures
            r.0.phase_view() == LoopPhase::Done,
            r.0.model_calls() == self.model_calls(),
            r.0.model_calls() <= r.0.max_steps(),
            r.1 == (AuditRecord::RunCancelled { step: self.step(), during: Some(during) }),
            r.2 is Cancelled,
    {
        proof {
            use_type_invariant(&self);
        }
        let ToolLoop {
            max_steps,
            step,
            messages,
            usage,
            pending,
            current,
            phase,
            model_calls,
            usages,
        } = self;
        let l = ToolLoop {
            max_steps,
            step,
            messages,
            usage,
            pending,
            current,
            phase: LoopPhase::Done,
            model_calls,
            usages,
        };
        (l, AuditRecord::RunCancelled { step, during: Some(during) }, RuntimeError::Cancelled)
    }
}

} // verus!

verus! {

impl RuntimeError {
    /// Whether `text` is how the error reads; the wrapped errors read as themselves.
    pub open spec fn message_is(&self, text: Seq<char>) -> bool {
        match self {
            RuntimeError::Model(e) => e.message_is(text),
            RuntimeError::Permission(e) => e.message_is(text),
            RuntimeError::Tool(e) => e.message_is(text),
            RuntimeError::Serialization(e) => crate::text::displays_as(e, text),
            RuntimeError::InvalidMaxSteps => text == "max tool steps must be greater than zero"@,
            RuntimeError::MaxToolSteps(n) => text == "agent run exceeded the maximum of "@
                + crate::text::decimal(*n as nat) + " tool steps"@,
            RuntimeError::Cancelled => text == "agent run was cancelled"@,
        }
    }

    /// How the error reads.
    pub fn message(&self) -> (r: String)
        ensures
            self.message_is(r@),
    {
        match self {
            RuntimeError::Model(e) => e.message(),
            RuntimeError::Permission(e) => e.message(),
            RuntimeError::Tool(e) => e.message(),
            RuntimeError::Serialization(e) => {
                let r = e.to_string();
                assert(crate::text::displays_as(e, r@));
                r
            },
            RuntimeError::InvalidMaxSteps => "max tool steps must be greater than zero".to_owned(),
            RuntimeError::MaxToolSteps(n) => {
                let mut s = crate::text::prefixed(
                    "agent run exceeded the maximum of ",
                    crate::text::to_decimal(*n).as_str(),
                );
                s.append(" tool steps");
                s
            },
            RuntimeError::Cancelled => "agent run was cancelled".to_owned(),
        }
    }
}

} // verus!
