use crate::errors::AppError;
use crate::models::{
    AgentChatRequest, AgentChatResponse, AgentConfig, ChatHistoryMessage, HybridContext,
    MessageRole, ToolDefinition,
};
use crate::normalizer::{clean, cleaned};
use crate::prompt::{assemble, preamble_text, recent, renders, AssembledPrompt, HISTORY_WINDOW};
use crate::registry::{bind, binds, bound_definitions, ToolSlot, SLOT_CAPACITY};
use crate::retriever::{
    at_most, blank, blank_query_text, finish_retrieval, plan_retrieval, RetrievalPlan,
};
use vstd::prelude::*;

verus! {

/// How many fragments are retrieved for a turn.
pub const CONTEXT_FRAGMENTS: usize = 3;

/// Where one turn of a conversation stands.
#[derive(Debug)]
pub enum TurnState {
    /// Nothing was done yet.
    Idle,
    /// The agent's definition is being loaded.
    LoadingAgent,
    /// The user's message is being saved.
    SavingUserMessage { agent: AgentConfig },
    /// The context is being retrieved.
    Retrieving { agent: AgentConfig },
    /// The agent's tools are being loaded.
    LoadingTools { agent: AgentConfig, fragments: Vec<HybridContext> },
    /// The conversation's history is being loaded.
    LoadingHistory { agent: AgentConfig, fragments: Vec<HybridContext>, slots: Vec<ToolSlot> },
    /// The model is completing.
    Completing,
    /// The answer is being saved.
    SavingReply { answer: String },
    /// The turn is over.
    Finished,
}

/// What happened since the last step of a turn.
pub enum TurnEvent {
    /// The turn was asked for.
    Started,
    /// The configuration store answered for the agent.
    AgentLoaded(Result<AgentConfig, AppError>),
    /// The memory store answered for the message that was to be saved.
    MessageSaved(Result<(), AppError>),
    /// The providers answered for the context.
    ContextFetched(Result<Vec<HybridContext>, AppError>),
    /// The configuration store answered for the tools: for each identifier
    /// in order the definition, or nothing where none could be loaded.
    ToolsLoaded(Vec<Option<ToolDefinition>>),
    /// The memory store answered for the history.
    HistoryLoaded(Result<Vec<ChatHistoryMessage>, AppError>),
    /// The completion ended, with the raw transcript or an error.
    ModelFinished(Result<String, AppError>),
}

/// What the completion engine is given for a turn.
#[derive(Debug)]
pub struct Completion {
    pub model: Option<String>,
    pub prompt: AssembledPrompt,
    pub slots: Vec<ToolSlot>,
    pub message: String,
}

/// What is to be done next in a turn.
#[derive(Debug)]
pub enum TurnAction {
    /// Load the definition of this agent.
    LoadAgent(String),
    /// Save this message under this role.
    SaveMessage(MessageRole, String),
    /// Embed this query and fetch this many fragments.
    FetchContext(String, usize),
    /// Load the definitions of these tools.
    LoadTools(Vec<String>),
    /// Load this many of the conversation's last messages.
    LoadHistory(usize),
    /// Run the completion.
    Complete(Completion),
    /// The turn ended with this response.
    Respond(AgentChatResponse),
    /// The turn failed with this error.
    Fail(AppError),
    /// The event does not belong to the state: nothing is done.
    Ignore,
}

/// Whether `c` is the completion of the turn: the agent's model, the
/// preamble made of its system prompt and the fragments, the last messages
/// of the history, the bound tools, and the user's message.
pub open spec fn is_completion_of(
    c: Completion,
    request: AgentChatRequest,
    agent: AgentConfig,
    fragments: Seq<HybridContext>,
    slots: Vec<ToolSlot>,
    history: Seq<ChatHistoryMessage>,
) -> bool {
    &&& c.model == agent.model
    &&& c.prompt.preamble@ == preamble_text(agent.system_prompt@, fragments)
    &&& renders(c.prompt.history@, recent(history, HISTORY_WINDOW as nat))
    &&& c.slots == slots
    &&& c.message@ == request.message@
}

/// The step relation of a turn.
///
/// A turn loads the agent, saves the user's message, retrieves the context,
/// loads and binds the tools, loads the history, runs the completion, cleans
/// the transcript, saves the answer, and responds. Each stage begins when
/// the one before ended well; the first failure ends the turn with that
/// error. A blank message is rejected after it was saved and before any
/// provider is called. Any event that does not belong to the state is
/// ignored and leaves the state as it is.
pub open spec fn is_step(
    request: AgentChatRequest,
    state: TurnState,
    event: TurnEvent,
    next: TurnState,
    action: TurnAction,
) -> bool {
    match (state, event) {
        (TurnState::Idle, TurnEvent::Started) => {
            &&& next is LoadingAgent
            &&& action matches TurnAction::LoadAgent(id)
            &&& id@ == request.agent_id@
        },
        (TurnState::LoadingAgent, TurnEvent::AgentLoaded(Ok(agent))) => {
            &&& next == (TurnState::SavingUserMessage { agent })
            &&& action matches TurnAction::SaveMessage(MessageRole::User, content)
            &&& content@ == request.message@
        },
        (TurnState::LoadingAgent, TurnEvent::AgentLoaded(Err(e))) => {
            &&& next is Finished
            &&& action == TurnAction::Fail(e)
        },
        (TurnState::SavingUserMessage { agent }, TurnEvent::MessageSaved(Ok(_))) => {
            if blank(request.message@) {
                &&& next is Finished
                &&& action matches TurnAction::Fail(AppError::ValidationError(cause))
                &&& cause@ == blank_query_text()
            } else {
                &&& next == (TurnState::Retrieving { agent })
                &&& action matches TurnAction::FetchContext(query, k)
                &&& query@ == request.message@
                &&& k == CONTEXT_FRAGMENTS
            }
        },
        (TurnState::SavingUserMessage { .. }, TurnEvent::MessageSaved(Err(e))) => {
            &&& next is Finished
            &&& action == TurnAction::Fail(e)
        },
        (TurnState::Retrieving { agent }, TurnEvent::ContextFetched(Ok(found))) => {
            &&& next matches TurnState::LoadingTools { agent: a, fragments }
            &&& a.id == agent.id
            &&& a.name == agent.name
            &&& a.description == agent.description
            &&& a.system_prompt == agent.system_prompt
            &&& a.model == agent.model
            &&& a.tools@.len() == 0
            &&& fragments@ == at_most(found@, CONTEXT_FRAGMENTS as nat)
            &&& action matches TurnAction::LoadTools(ids)
            &&& ids == agent.tools
        },
        (TurnState::Retrieving { .. }, TurnEvent::ContextFetched(Err(e))) => {
            &&& next is Finished
            &&& action == TurnAction::Fail(e)
        },
        (TurnState::LoadingTools { agent, fragments }, TurnEvent::ToolsLoaded(resolved)) => {
            &&& next matches TurnState::LoadingHistory { agent: a, fragments: f, slots }
            &&& a == agent
            &&& f == fragments
            &&& binds(slots@, bound_definitions(resolved@, SLOT_CAPACITY as nat))
            &&& action == TurnAction::LoadHistory(HISTORY_WINDOW)
        },
        (
            TurnState::LoadingHistory { agent, fragments, slots },
            TurnEvent::HistoryLoaded(Ok(history)),
        ) => {
            &&& next is Completing
            &&& action matches TurnAction::Complete(c)
            &&& is_completion_of(c, request, agent, fragments@, slots, history@)
        },
        (TurnState::LoadingHistory { .. }, TurnEvent::HistoryLoaded(Err(e))) => {
            &&& next is Finished
            &&& action == TurnAction::Fail(e)
        },
        (TurnState::Completing, TurnEvent::ModelFinished(Ok(raw))) => {
            &&& next matches TurnState::SavingReply { answer }
            &&& answer@ == cleaned(raw@)
            &&& action matches TurnAction::SaveMessage(MessageRole::Assistant, content)
            &&& content@ == cleaned(raw@)
        },
        (TurnState::Completing, TurnEvent::ModelFinished(Err(e))) => {
            &&& next is Finished
            &&& action == TurnAction::Fail(e)
        },
        (TurnState::SavingReply { answer }, TurnEvent::MessageSaved(Ok(_))) => {
            &&& next is Finished
            &&& action matches TurnAction::Respond(response)
            &&& response.response == answer
            &&& response.used_tools@.len() == 0
        },
        (TurnState::SavingReply { .. }, TurnEvent::MessageSaved(Err(e))) => {
            &&& next is Finished
            &&& action == TurnAction::Fail(e)
        },
        _ => next == state && action is Ignore,
    }
}

/// Takes one step of a turn: from the state and what happened to the next
/// state and what is to be done.
pub fn step(request: &AgentChatRequest, state: TurnState, event: TurnEvent) -> (r: (
    TurnState,
    TurnAction,
))
    ensures
        is_step(*request, state, event, r.0, r.1),
{
    match (state, event) {
        (TurnState::Idle, TurnEvent::Started) => (
            TurnState::LoadingAgent,
            TurnAction::LoadAgent(request.agent_id.clone()),
        ),
        (TurnState::LoadingAgent, TurnEvent::AgentLoaded(Ok(agent))) => (
            TurnState::SavingUserMessage { agent },
            TurnAction::SaveMessage(MessageRole::User, request.message.clone()),
        ),
        (TurnState::LoadingAgent, TurnEvent::AgentLoaded(Err(e))) => (
            TurnState::Finished,
            TurnAction::Fail(e),
        ),
        (TurnState::SavingUserMessage { agent }, TurnEvent::MessageSaved(Ok(_))) => {
            match plan_retrieval(request.message.as_str(), CONTEXT_FRAGMENTS) {
                RetrievalPlan::Reject(e) => (TurnState::Finished, TurnAction::Fail(e)),
                _ => (
                    TurnState::Retrieving { agent },
                    TurnAction::FetchContext(request.message.clone(), CONTEXT_FRAGMENTS),
                ),
            }
        },
        (TurnState::SavingUserMessage { .. }, TurnEvent::MessageSaved(Err(e))) => (
            TurnState::Finished,
            TurnAction::Fail(e),
        ),
        (TurnState::Retrieving { agent }, TurnEvent::ContextFetched(fetched)) => {
            match finish_retrieval(fetched, CONTEXT_FRAGMENTS) {
                Ok(fragments) => {
                    let AgentConfig { id, name, description, system_prompt, model, tools } = agent;
                    let kept: AgentConfig = AgentConfig {
                        id,
                        name,
                        description,
                        system_prompt,
                        model,
                        tools: Vec::new(),
                    };
                    (
                        TurnState::LoadingTools { agent: kept, fragments },
                        TurnAction::LoadTools(tools),
                    )
                },
                Err(e) => (TurnState::Finished, TurnAction::Fail(e)),
            }
        },
        (TurnState::LoadingTools { agent, fragments }, TurnEvent::ToolsLoaded(resolved)) => {
            let slots: Vec<ToolSlot> = bind(resolved, SLOT_CAPACITY);
            (
                TurnState::LoadingHistory { agent, fragments, slots },
                TurnAction::LoadHistory(HISTORY_WINDOW),
            )
        },
        (
            TurnState::LoadingHistory { agent, fragments, slots },
            TurnEvent::HistoryLoaded(Ok(history)),
        ) => {
            let prompt: AssembledPrompt = assemble(
                agent.system_prompt.as_str(),
                &fragments,
                &history,
            );
            let completion: Completion = Completion {
                model: agent.model,
                prompt,
                slots,
                message: request.message.clone(),
            };
            (TurnState::Completing, TurnAction::Complete(completion))
        },
        (TurnState::LoadingHistory { .. }, TurnEvent::HistoryLoaded(Err(e))) => (
            TurnState::Finished,
            TurnAction::Fail(e),
        ),
        (TurnState::Completing, TurnEvent::ModelFinished(Ok(raw))) => {
            let answer: String = clean(raw.as_str());
            let content: String = answer.clone();
            (
                TurnState::SavingReply { answer },
                TurnAction::SaveMessage(MessageRole::Assistant, content),
            )
        },
        (TurnState::Completing, TurnEvent::ModelFinished(Err(e))) => (
            TurnState::Finished,
            TurnAction::Fail(e),
        ),
        (TurnState::SavingReply { answer }, TurnEvent::MessageSaved(Ok(_))) => (
            TurnState::Finished,
            TurnAction::Respond(AgentChatResponse { response: answer, used_tools: Vec::new() }),
        ),
        (TurnState::SavingReply { .. }, TurnEvent::MessageSaved(Err(e))) => (
            TurnState::Finished,
            TurnAction::Fail(e),
        ),
        (state, _) => (state, TurnAction::Ignore),
    }
}

/// An answer is saved only for a completion that ended well, and what is
/// saved is the cleaned transcript: a turn that fails leaves no answer in
/// the conversation.
pub proof fn lemma_answer_saved_after_cleaning(
    request: AgentChatRequest,
    state: TurnState,
    event: TurnEvent,
    next: TurnState,
    action: TurnAction,
)
    requires
        is_step(request, state, event, next, action),
        action matches TurnAction::SaveMessage(MessageRole::Assistant, _),
    ensures
        state is Completing,
        event matches TurnEvent::ModelFinished(Ok(raw)) && action matches TurnAction::SaveMessage(
            _,
            content,
        ) && content@ == cleaned(raw@),
{
}

/// The user's message is saved as soon as the agent is known, before
/// anything is retrieved or generated, and as it was sent.
pub proof fn lemma_user_message_saved_first(
    request: AgentChatRequest,
    state: TurnState,
    event: TurnEvent,
    next: TurnState,
    action: TurnAction,
)
    requires
        is_step(request, state, event, next, action),
        action matches TurnAction::SaveMessage(MessageRole::User, _),
    ensures
        state is LoadingAgent,
        event matches TurnEvent::AgentLoaded(Ok(_)),
        action matches TurnAction::SaveMessage(_, content) && content@ == request.message@,
{
}

/// A turn responds only once its answer was saved; the response carries
/// that answer, which is a cleaned transcript wherever the state was
/// reached by a step, and names no tool.
pub proof fn lemma_response_is_saved_answer(
    request: AgentChatRequest,
    state: TurnState,
    event: TurnEvent,
    next: TurnState,
    action: TurnAction,
)
    requires
        is_step(request, state, event, next, action),
        action is Respond,
    ensures
        state matches TurnState::SavingReply { answer } && action matches TurnAction::Respond(
            response,
        ) && response.response == answer && response.used_tools@.len() == 0,
        event matches TurnEvent::MessageSaved(Ok(_)),
        next is Finished,
{
}

/// A failure ends the turn, and a finished turn does nothing more.
pub proof fn lemma_failure_is_final(
    request: AgentChatRequest,
    state: TurnState,
    event: TurnEvent,
    next: TurnState,
    action: TurnAction,
)
    requires
        is_step(request, state, event, next, action),
    ensures
        action is Fail ==> next is Finished,
        state is Finished ==> next is Finished && action is Ignore,
{
}

/// No provider is asked for a blank message: the context is fetched only
/// for a message that is not blank, and then for the fixed number of
/// fragments.
pub proof fn lemma_blank_message_is_not_embedded(
    request: AgentChatRequest,
    state: TurnState,
    event: TurnEvent,
    next: TurnState,
    action: TurnAction,
)
    requires
        is_step(request, state, event, next, action),
        action is FetchContext,
    ensures
        !blank(request.message@),
        state is SavingUserMessage,
        action matches TurnAction::FetchContext(query, k) && query@ == request.message@ && k
            == CONTEXT_FRAGMENTS,
{
}

} // verus!
