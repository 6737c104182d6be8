//! The agent loop: one conversation that alternates between answers of the reasoning backend
//! and local tool dispatch, bounded by a fixed number of backend calls.
//!
//! The loop is a state machine. Its owner asks the backend while the session is
//! `Phase::AwaitingBackend` and hands each answer, or the failure, back to the session.

use vstd::prelude::*;
use vstd::string::*;
use crate::catalog::{catalog, get_tool_definitions, tool_definition_views};
use crate::executor::Executor;
use crate::message::{
    duplicate_messages, duplicate_tool_calls, message_views, plain_message, tool_call_views,
    tool_request_message, ChatResponse, Message, MessageView, Role, ToolCall, ToolCallView,
    ToolDefinition,
};
use crate::text::{prefixed, same_text};
use crate::tools::{
    dispatch_allows, error_text, execute_tool, outcome_view, tool_request, ToolError, ToolErrorView,
};

verus! {

/// The most backend calls that one input may cause.
pub const MAX_ITERATIONS: usize = 10;

/// Where a session stands.
#[derive(Clone, Copy, Debug, PartialEq, Eq, Structural)]
pub enum Phase {
    /// No input is being worked on.
    Idle,
    /// The backend is to be asked with the current history.
    AwaitingBackend,
    /// The backend gave a final answer, which was appended.
    FinalAnswer,
    /// The backend asked for no tool and said nothing.
    NoAnswer,
    /// The backend still asked for tools when the cap was reached.
    Aborted,
    /// The backend call failed.
    Failed,
}

/// What an interactive line asks for.
#[derive(Debug, PartialEq, Eq)]
pub enum ReplCommand {
    /// Nothing: the line is empty.
    Skip,
    /// End the session.
    Exit,
    /// Forget the conversation up to the system message.
    Clear,
    /// Work on this text.
    Prompt(String),
}

/// The mathematical content of a `ReplCommand`.
pub ghost enum ReplCommandView {
    Skip,
    Exit,
    Clear,
    Prompt(Seq<char>),
}

impl View for ReplCommand {
    type V = ReplCommandView;

    open spec fn view(&self) -> ReplCommandView {
        match self {
            ReplCommand::Skip => ReplCommandView::Skip,
            ReplCommand::Exit => ReplCommandView::Exit,
            ReplCommand::Clear => ReplCommandView::Clear,
            ReplCommand::Prompt(text) => ReplCommandView::Prompt(text@),
        }
    }
}

/// What a line without surrounding whitespace asks for.
pub open spec fn command_of(line: Seq<char>) -> ReplCommandView {
    if line.len() == 0 {
        ReplCommandView::Skip
    } else if line == "exit"@ || line == "quit"@ {
        ReplCommandView::Exit
    } else if line == "clear"@ {
        ReplCommandView::Clear
    } else {
        ReplCommandView::Prompt(line)
    }
}

/// Tells what a line asks for; the line is taken as it stands, surrounding whitespace
/// removed by the caller.
pub fn classify_trimmed(line: &str) -> (r: ReplCommand)
    ensures
        r@ == command_of(line@),
{
    if line.unicode_len() == 0 {
        ReplCommand::Skip
    } else if same_text(line, "exit") || same_text(line, "quit") {
        ReplCommand::Exit
    } else if same_text(line, "clear") {
        ReplCommand::Clear
    } else {
        ReplCommand::Prompt(String::from_str(line))
    }
}

/// A text without its leading and trailing whitespace, as `str::trim` gives it.
pub uninterp spec fn trimmed_text(text: Seq<char>) -> Seq<char>;

/// Calls `str::trim`. Trusted: the result is a function of the text, named `trimmed_text`.
#[verifier::external_body]
fn trim(text: &str) -> (r: &str)
    ensures
        r@ == trimmed_text(text@),
{
    text.trim()
}

/// Tells what an interactive line asks for, whitespace around it ignored.
pub fn classify_line(line: &str) -> (r: ReplCommand)
    ensures
        r@ == command_of(trimmed_text(line@)),
{
    classify_trimmed(trim(line))
}

/// The content of the tool turn that reports an error of the dispatcher.
pub open spec fn failure_text(error: ToolErrorView) -> Seq<char> {
    "Error executing tool: "@ + error_text(error)
}

/// The content of the tool turn for an outcome of the dispatcher: the text as it is, an
/// error as its report.
pub open spec fn tool_turn_text(outcome: Result<Seq<char>, ToolErrorView>) -> Seq<char> {
    match outcome {
        Ok(text) => text,
        Err(error) => failure_text(error),
    }
}

/// Folds an outcome of the dispatcher into the content of a tool turn: a failure is not
/// passed on but reported as text.
pub fn tool_turn_content(outcome: Result<String, ToolError>) -> (r: String)
    ensures
        r@ == tool_turn_text(outcome_view(outcome)),
{
    match outcome {
        Ok(text) => text,
        Err(error) => {
            let report = error.message();
            prefixed("Error executing tool: ", report.as_str())
        },
    }
}

/// Whether `turn` is a tool turn that answers `call`: it carries the call's identifier, and
/// its content is what some outcome of dispatching the call folds into.
pub open spec fn answers(call: ToolCallView, turn: MessageView) -> bool {
    &&& turn.role == Role::Tool
    &&& turn.tool_call_id == Some(call.id)
    &&& turn.tool_calls is None
    &&& exists|outcome: Result<Seq<char>, ToolErrorView>|
        #[trigger] dispatch_allows(tool_request(call.name, call.arguments), outcome)
            && turn.content == tool_turn_text(outcome)
}

/// A call that does not parse is answered with the report of its error.
pub proof fn lemma_failed_call_is_reported(call: ToolCallView, turn: MessageView)
    requires
        answers(call, turn),
        tool_request(call.name, call.arguments) is Err,
    ensures
        turn.content == failure_text(tool_request(call.name, call.arguments)->Err_0),
{
}

/// Whether `after` is `before` followed by one tool turn per call, in the order of the calls.
pub open spec fn answered_in_order(
    before: Seq<MessageView>,
    calls: Seq<ToolCallView>,
    after: Seq<MessageView>,
) -> bool {
    &&& after.len() == before.len() + calls.len()
    &&& after.subrange(0, before.len() as int) == before
    &&& forall|i: int| 0 <= i < calls.len() ==> answers(calls[i], #[trigger] after[before.len() + i])
}

/// Dispatches each call in order and appends one tool turn per call. A call that fails is
/// answered with the report of its failure, and the calls after it are dispatched all the
/// same.
pub fn dispatch_tool_calls<E: Executor>(
    messages: &mut Vec<Message>,
    calls: &Vec<ToolCall>,
    executor: &E,
)
    ensures
        answered_in_order(
            message_views(old(messages)@),
            tool_call_views(calls@),
            message_views(final(messages)@),
        ),
        forall|i: int|
            old(messages).len() <= i < final(messages).len() ==> (#[trigger] final(messages)[i]).well_formed(),
        forall|i: int| 0 <= i < old(messages).len() ==> final(messages)[i] == old(messages)[i],
{
    let ghost before = messages@;
    let mut i: usize = 0;
    while i < calls.len()
        invariant
            i <= calls.len(),
            messages.len() == before.len() + i,
            forall|j: int| 0 <= j < before.len() ==> messages[j] == before[j],
            forall|j: int|
                0 <= j < i ==> answers(calls[j]@, #[trigger] messages[before.len() + j]@),
            forall|j: int| before.len() <= j < messages.len() ==> (#[trigger] messages[j]).well_formed(),
        decreases calls.len() - i,
    {
        let call = &calls[i];
        let outcome = execute_tool(
            call.function.name.as_str(),
            call.function.arguments.as_str(),
            executor,
        );
        let content = tool_turn_content(outcome);
        let turn = Message::tool(content, call.id.clone());
        assert(dispatch_allows(
            tool_request(call@.name, call@.arguments),
            outcome_view(outcome),
        ));
        assert(answers(call@, turn@));
        messages.push(turn);
        i = i + 1;
    }
    proof {
        let after = message_views(messages@);
        let prior = message_views(before);
        assert(after.subrange(0, prior.len() as int) =~= prior);
        assert forall|k: int| 0 <= k < calls.len() implies answers(
            tool_call_views(calls@)[k],
            #[trigger] after[prior.len() + k],
        ) by {
            assert(answers(calls[k]@, messages[before.len() + k]@));
        }
    }
}

/// Whether `turn` is an assistant turn whose `k`-th tool call has the identifier `id`.
pub open spec fn issues(turn: MessageView, k: int, id: Seq<char>) -> bool {
    &&& turn.role == Role::Assistant
    &&& turn.tool_calls matches Some(calls) && 0 <= k < calls.len() && calls[k].id == id
}

/// Whether the identifier that turn `i` carries was issued by an assistant turn before it.
pub open spec fn issued_before(history: Seq<MessageView>, i: int) -> bool {
    exists|j: int, k: int|
        0 <= j < i && #[trigger] issues(history[j], k, history[i].tool_call_id->Some_0)
}

/// Whether every tool turn answers a call that an assistant turn before it asked for.
pub open spec fn tool_turns_are_answers(history: Seq<MessageView>) -> bool {
    forall|i: int|
        0 <= i < history.len() && (#[trigger] history[i]).role == Role::Tool ==> issued_before(
            history,
            i,
        )
}

proof fn lemma_answers_stay_answers(before: Seq<MessageView>, after: Seq<MessageView>)
    requires
        before.len() <= after.len(),
        after.subrange(0, before.len() as int) == before,
        tool_turns_are_answers(before),
    ensures
        forall|i: int|
            0 <= i < before.len() && (#[trigger] after[i]).role == Role::Tool ==> issued_before(
                after,
                i,
            ),
{
    assert forall|i: int|
        0 <= i < before.len() && (#[trigger] after[i]).role == Role::Tool implies issued_before(
        after,
        i,
    ) by {
        assert(after[i] == after.subrange(0, before.len() as int)[i]);
        assert(before[i].role == Role::Tool);
        let (j, k) = choose|j: int, k: int|
            0 <= j < i && #[trigger] issues(before[j], k, before[i].tool_call_id->Some_0);
        assert(after[j] == after.subrange(0, before.len() as int)[j]);
        assert(issues(after[j], k, after[i].tool_call_id->Some_0));
    }
}

/// The instructions that open every conversation.
pub open spec fn system_prompt() -> Seq<char> {
    "You are an AI assistant that helps users interact with their system through shell commands. You have access to tools like bash, read, write, and list to help users accomplish their tasks. When a user asks you to do something, use the appropriate tools to complete the task. Always explain what you're doing and show the results to the user."@
}

/// One agent session: an executor, the conversation so far, and where the loop stands.
pub struct Repl<E: Executor> {
    executor: E,
    messages: Vec<Message>,
    phase: Phase,
    backend_calls: usize,
}

impl<E: Executor> Repl<E> {
    /// The turns of the conversation, oldest first.
    pub closed spec fn turns(&self) -> Seq<Message> {
        self.messages@
    }

    /// The contents of the turns of the conversation, oldest first.
    pub open spec fn history(&self) -> Seq<MessageView> {
        message_views(self.turns())
    }

    /// The executor that tool calls are dispatched to.
    pub closed spec fn spec_executor(&self) -> E {
        self.executor
    }

    /// Where the loop stands.
    pub closed spec fn spec_phase(&self) -> Phase {
        self.phase
    }

    /// How many backend calls the current input has caused and seen answered or failed.
    pub closed spec fn spec_backend_calls(&self) -> nat {
        self.backend_calls as nat
    }

    /// The conversation begins with its only system turn, a tool turn and no other carries a
    /// call identifier, which an assistant turn before it issued, and the backend is asked
    /// only while calls are left under the cap.
    pub open spec fn well_formed(&self) -> bool {
        &&& self.turns().len() >= 1
        &&& forall|i: int|
            0 <= i < self.turns().len() ==> ((#[trigger] self.turns()[i]).role == Role::System
                <==> i == 0)
        &&& forall|i: int| 0 <= i < self.turns().len() ==> (#[trigger] self.turns()[i]).well_formed()
        &&& tool_turns_are_answers(self.history())
        &&& self.spec_backend_calls() <= MAX_ITERATIONS
        &&& (self.spec_phase() == Phase::AwaitingBackend ==> self.spec_backend_calls()
            < MAX_ITERATIONS)
    }

    /// A new session: the conversation holds the system prompt alone.
    pub fn new(executor: E) -> (r: Self)
        ensures
            r.well_formed(),
            r.history() == seq![plain_message(Role::System, system_prompt())],
            r.spec_phase() == Phase::Idle,
            r.spec_backend_calls() == 0,
            r.spec_executor() == executor,
    {
        let prompt = String::from_str(
            "You are an AI assistant that helps users interact with their system through shell commands. You have access to tools like bash, read, write, and list to help users accomplish their tasks. When a user asks you to do something, use the appropriate tools to complete the task. Always explain what you're doing and show the results to the user.",
        );
        let mut messages: Vec<Message> = Vec::new();
        messages.push(Message::system(prompt));
        let r = Repl { executor, messages, phase: Phase::Idle, backend_calls: 0 };
        assert(r.history() =~= seq![plain_message(Role::System, system_prompt())]);
        r
    }

    /// The turns of the conversation, oldest first.
    pub fn messages(&self) -> (r: &Vec<Message>)
        ensures
            r@ == self.turns(),
    {
        &self.messages
    }

    /// Where the loop stands.
    pub fn phase(&self) -> (r: Phase)
        ensures
            r == self.spec_phase(),
    {
        self.phase
    }

    /// How many backend calls the current input has caused and seen answered or failed.
    pub fn backend_calls(&self) -> (r: usize)
        ensures
            r == self.spec_backend_calls(),
    {
        self.backend_calls
    }

    /// The executor of this session.
    pub fn executor(&self) -> (r: &E)
        ensures
            *r == self.spec_executor(),
    {
        &self.executor
    }

    /// What the backend is asked with: the whole history so far, in order, and the whole
    /// tool catalog.
    pub fn backend_request(&self) -> (r: (Vec<Message>, Vec<ToolDefinition>))
        ensures
            message_views(r.0@) == self.history(),
            tool_definition_views(r.1@) == catalog(),
    {
        (duplicate_messages(&self.messages), get_tool_definitions())
    }

    /// Forgets the conversation up to its system turn.
    pub fn clear(&mut self)
        requires
            old(self).well_formed(),
            old(self).spec_phase() != Phase::AwaitingBackend,
        ensures
            final(self).well_formed(),
            final(self).turns() == old(self).turns().take(1),
            final(self).turns().len() == 1,
            final(self).turns()[0].role == Role::System,
            final(self).spec_phase() == Phase::Idle,
            final(self).spec_backend_calls() == 0,
    {
        self.messages.truncate(1);
        self.phase = Phase::Idle;
        self.backend_calls = 0;
        assert(self.turns()[0] == old(self).turns()[0]);
    }

    /// Starts work on an input: appends it as a user turn and asks for the backend.
    pub fn begin(&mut self, input: &str)
        requires
            old(self).well_formed(),
            old(self).spec_phase() != Phase::AwaitingBackend,
        ensures
            final(self).well_formed(),
            final(self).history() == old(self).history().push(plain_message(Role::User, input@)),
            final(self).spec_phase() == Phase::AwaitingBackend,
            final(self).spec_backend_calls() == 0,
    {
        self.messages.push(Message::user(String::from_str(input)));
        self.phase = Phase::AwaitingBackend;
        self.backend_calls = 0;
        assert(self.history() =~= old(self).history().push(plain_message(Role::User, input@)));
        proof {
            assert(self.history().subrange(0, old(self).history().len() as int) =~= old(
                self,
            ).history());
            lemma_answers_stay_answers(old(self).history(), self.history());
        }
    }

    /// Takes an interactive line: an empty line and a request to leave change nothing,
    /// `clear` forgets the conversation up to its system turn, any other text starts work on
    /// it. What the line asked for is handed back.
    pub fn accept_line(&mut self, line: &str) -> (r: ReplCommand)
        requires
            old(self).well_formed(),
            old(self).spec_phase() != Phase::AwaitingBackend,
        ensures
            final(self).well_formed(),
            r@ == command_of(trimmed_text(line@)),
            match r@ {
                ReplCommandView::Skip | ReplCommandView::Exit => {
                    &&& final(self).turns() == old(self).turns()
                    &&& final(self).spec_phase() == old(self).spec_phase()
                    &&& final(self).spec_backend_calls() == old(self).spec_backend_calls()
                },
                ReplCommandView::Clear => {
                    &&& final(self).turns() == old(self).turns().take(1)
                    &&& final(self).spec_phase() == Phase::Idle
                    &&& final(self).spec_backend_calls() == 0
                },
                ReplCommandView::Prompt(text) => {
                    &&& final(self).history() == old(self).history().push(
                        plain_message(Role::User, text),
                    )
                    &&& final(self).spec_phase() == Phase::AwaitingBackend
                    &&& final(self).spec_backend_calls() == 0
                },
            },
    {
        let command = classify_line(line);
        match &command {
            ReplCommand::Skip => {},
            ReplCommand::Exit => {},
            ReplCommand::Clear => {
                self.clear();
            },
            ReplCommand::Prompt(text) => {
                self.begin(text.as_str());
            },
        }
        command
    }

    /// Takes the failure of a backend call: the loop ends at once and the conversation
    /// stays as it is.
    pub fn handle_failure(&mut self)
        requires
            old(self).well_formed(),
            old(self).spec_phase() == Phase::AwaitingBackend,
        ensures
            final(self).well_formed(),
            final(self).turns() == old(self).turns(),
            final(self).spec_phase() == Phase::Failed,
            final(self).spec_backend_calls() == old(self).spec_backend_calls() + 1,
    {
        self.phase = Phase::Failed;
        self.backend_calls = self.backend_calls + 1;
    }

    /// Takes an answer of the backend.
    ///
    /// With tool calls: appends the assistant turn that carries them, then one tool turn per
    /// call, in order; the backend is asked again unless the cap is reached. Without: a
    /// content that is not empty is appended as the final answer, an empty one ends the loop
    /// with nothing appended.
    pub fn handle_response(&mut self, response: ChatResponse) -> (r: Phase)
        requires
            old(self).well_formed(),
            old(self).spec_phase() == Phase::AwaitingBackend,
        ensures
            final(self).well_formed(),
            r == final(self).spec_phase(),
            final(self).spec_backend_calls() == old(self).spec_backend_calls() + 1,
            r == response_phase(requested_calls(response), response.content@, final(self).spec_backend_calls()),
            match requested_calls(response) {
                Some(calls) => {
                    &&& final(self).history().len() == old(self).history().len() + 1 + calls.len()
                    &&& final(self).history()[old(self).history().len() as int]
                        == tool_request_message(response.content@, calls)
                    &&& answered_in_order(
                        old(self).history().push(tool_request_message(response.content@, calls)),
                        calls,
                        final(self).history(),
                    )
                },
                None => final(self).history() == (if response.content@.len() > 0 {
                    old(self).history().push(plain_message(Role::Assistant, response.content@))
                } else {
                    old(self).history()
                }),
            },
    {
        self.backend_calls = self.backend_calls + 1;
        let ChatResponse { content, tool_calls, finish_reason: _ } = response;
        let calls: Vec<ToolCall> = match tool_calls {
            Some(list) => list,
            None => Vec::new(),
        };
        if calls.len() > 0 {
            let carried = duplicate_tool_calls(&calls);
            let ghost before = self.history();
            let ghost request = tool_request_message(content@, tool_call_views(calls@));
            self.messages.push(Message::assistant_with_tool_calls(content, carried));
            assert(self.history() =~= before.push(request));
            let ghost asked = self.messages@;
            dispatch_tool_calls(&mut self.messages, &calls, &self.executor);
            proof {
                let views = tool_call_views(calls@);
                assert forall|i: int| 0 <= i < self.turns().len() implies ((
                #[trigger] self.turns()[i]).role == Role::System <==> i == 0) by {
                    if i < asked.len() {
                        assert(self.turns()[i] == asked[i]);
                    } else {
                        let k = i - asked.len();
                        assert(answers(views[k], self.history()[asked.len() + k]));
                    }
                }
                assert forall|i: int| 0 <= i < self.turns().len() implies (
                #[trigger] self.turns()[i]).well_formed() by {
                    if i < asked.len() {
                        assert(self.turns()[i] == asked[i]);
                    }
                }
                let after = self.history();
                let n = before.len() as int;
                assert(after.subrange(0, n) =~= before) by {
                    assert forall|j: int| 0 <= j < n implies after[j] == before[j] by {
                        assert(after[j] == after.subrange(0, n + 1)[j]);
                    }
                }
                lemma_answers_stay_answers(before, after);
                assert(after[n] == request) by {
                    assert(after[n] == after.subrange(0, n + 1)[n]);
                }
                assert forall|i: int|
                    0 <= i < after.len() && (#[trigger] after[i]).role
                        == Role::Tool implies issued_before(after, i) by {
                    if i > n {
                        let k = i - n - 1;
                        assert(answers(views[k], after[n + 1 + k]));
                        assert(issues(after[n], k, after[i].tool_call_id->Some_0));
                    }
                }
            }
            self.phase = if self.backend_calls < MAX_ITERATIONS {
                Phase::AwaitingBackend
            } else {
                Phase::Aborted
            };
            assert(self.history()[before.len() as int] == request) by {
                assert(self.history().subrange(0, (before.len() + 1) as int)[before.len() as int]
                    == request);
            }
        } else if content.as_str().unicode_len() > 0 {
            let ghost before = self.history();
            self.messages.push(Message::assistant(content));
            self.phase = Phase::FinalAnswer;
            assert(self.history() =~= before.push(
                plain_message(Role::Assistant, response.content@),
            ));
            proof {
                assert(self.history().subrange(0, before.len() as int) =~= before);
                lemma_answers_stay_answers(before, self.history());
            }
        } else {
            self.phase = Phase::NoAnswer;
        }
        self.phase
    }
}

/// The tool calls that an answer asks for: those of a list that is not empty.
pub open spec fn requested_calls(response: ChatResponse) -> Option<Seq<ToolCallView>> {
    match response.tool_calls {
        Some(list) => if list.len() > 0 {
            Some(tool_call_views(list@))
        } else {
            None
        },
        None => None,
    }
}

/// Where the loop stands after an answer, the backend calls made so far counted in `calls`.
pub open spec fn response_phase(
    requested: Option<Seq<ToolCallView>>,
    content: Seq<char>,
    calls: nat,
) -> Phase {
    if requested is Some {
        if calls < MAX_ITERATIONS {
            Phase::AwaitingBackend
        } else {
            Phase::Aborted
        }
    } else if content.len() > 0 {
        Phase::FinalAnswer
    } else {
        Phase::NoAnswer
    }
}

/// However a session got where it is, the backend calls of the current input number at most
/// the cap, and while the backend is still to be asked they number less.
pub proof fn lemma_backend_calls_bounded<E: Executor>(session: Repl<E>)
    requires
        session.well_formed(),
    ensures
        session.spec_backend_calls() <= MAX_ITERATIONS,
        session.spec_phase() == Phase::AwaitingBackend ==> session.spec_backend_calls() + 1
            <= MAX_ITERATIONS,
{
}

/// An answer of the backend never fails the loop, whatever the tools it asked for did: below
/// the cap an answer with tool calls has the backend asked again, and at the cap it stops the
/// loop.
pub proof fn lemma_tool_failures_do_not_abort(
    requested: Option<Seq<ToolCallView>>,
    content: Seq<char>,
    calls: nat,
)
    ensures
        response_phase(requested, content, calls) != Phase::Failed,
        requested is Some && calls < MAX_ITERATIONS ==> response_phase(requested, content, calls)
            == Phase::AwaitingBackend,
        requested is Some && calls >= MAX_ITERATIONS ==> response_phase(requested, content, calls)
            == Phase::Aborted,
{
}

} // verus!
