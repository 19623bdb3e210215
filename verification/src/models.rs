use vstd::prelude::*;
use vstd::string::StringExecFns;

verus! {

/// What a user may do.
#[derive(Clone, Copy, Debug, PartialEq, Eq, Structural)]
pub enum UserRole {
    Admin,
    User,
}

impl UserRole {
    /// The role's name as it is shown and stored.
    pub open spec fn label_text(self) -> Seq<char> {
        match self {
            UserRole::Admin => "Admin"@,
            UserRole::User => "User"@,
        }
    }

    /// The role's name as it is shown and stored.
    pub fn label(&self) -> (r: String)
        ensures
            r@ == self.label_text(),
    {
        match self {
            UserRole::Admin => String::from_str("Admin"),
            UserRole::User => String::from_str("User"),
        }
    }
}

/// A stored account.
#[derive(Clone, Debug)]
pub struct User {
    pub id: String,
    pub username: String,
    pub password_hash: String,
    pub role: UserRole,
}

/// What a session token states: the user, the role, and the second at which
/// the token expires.
#[derive(Clone, Debug)]
pub struct Claims {
    pub sub: String,
    pub role: UserRole,
    pub exp: usize,
}

/// The model providers that can be configured.
#[derive(Clone, Copy, Debug, PartialEq, Eq, Structural)]
pub enum AIProvider {
    OpenAI,
    Ollama,
    Groq,
}

/// The provider settings. The key is kept as plain text here; whoever holds
/// a value of this type keeps it out of logs.
#[derive(Clone)]
pub struct AIConfig {
    pub provider: AIProvider,
    pub model_name: String,
    pub embedding_model: String,
    pub api_key: String,
    pub embedding_dim: usize,
    pub base_url: Option<String>,
}

/// A node of the knowledge graph.
#[derive(Clone, Debug)]
pub struct GraphEntity {
    pub name: String,
    pub category: String,
}

/// An edge of the knowledge graph.
#[derive(Clone, Debug)]
pub struct GraphRelation {
    pub source: String,
    pub target: String,
    pub relation_type: String,
}

/// The entities and relations found in one text.
#[derive(Clone, Debug)]
pub struct KnowledgeExtraction {
    pub entities: Vec<GraphEntity>,
    pub relations: Vec<GraphRelation>,
}

/// A node as the graph view draws it.
#[derive(Clone, Debug)]
pub struct VisNode {
    pub id: String,
    pub label: String,
    pub group: String,
}

/// An edge as the graph view draws it.
#[derive(Clone, Debug)]
pub struct VisEdge {
    pub from: String,
    pub to: String,
    pub label: String,
}

/// A graph, or a part of one, for the graph view.
#[derive(Clone, Debug)]
pub struct GraphDataResponse {
    pub nodes: Vec<VisNode>,
    pub edges: Vec<VisEdge>,
}

/// A question put to the plain chat.
#[derive(Clone, Debug)]
pub struct ChatRequest {
    pub message: String,
}

/// One retrieved fragment: a chunk of text and the names of the graph
/// entities connected to it.
#[derive(Clone, Debug)]
pub struct HybridContext {
    pub chunk_id: String,
    pub content: String,
    pub connected_entities: Vec<String>,
}

/// A relation that reasoning proposed, with its justification.
#[derive(Clone, Debug)]
pub struct InferredRelation {
    pub source: String,
    pub target: String,
    pub relation: String,
    pub reasoning: String,
}

/// What one reasoning run proposed.
#[derive(Clone, Debug)]
pub struct InferenceResult {
    pub new_relations: Vec<InferredRelation>,
}

/// The whole graph, as it is exported.
#[derive(Clone, Debug)]
pub struct ExportedGraph {
    pub generated_at: String,
    pub domain: String,
    pub nodes: Vec<GraphEntity>,
    pub edges: Vec<GraphRelation>,
}

/// The formats in which the graph can be exported.
#[derive(Clone, Copy, Debug, PartialEq, Eq, Structural)]
pub enum ExportFormat {
    JsonLd,
    Turtle,
    GraphML,
}

/// The parameters of an export.
#[derive(Clone, Debug)]
pub struct ExportParams {
    pub format: Option<ExportFormat>,
}

/// An agent: who it is, how it is prompted, and the identifiers of the tools
/// it may use, in order.
#[derive(Clone, Debug)]
pub struct AgentConfig {
    pub id: String,
    pub name: String,
    pub description: String,
    pub system_prompt: String,
    pub model: Option<String>,
    pub tools: Vec<String>,
}

/// How an HTTP tool calls out: the method, the URL template with its
/// `{{input.<key>}}` placeholders, the headers, and the body template as
/// JSON text.
#[derive(Clone, Debug)]
pub struct HttpToolConfig {
    pub method: String,
    pub url: String,
    pub headers: Option<Vec<(String, String)>>,
    pub body_template: Option<String>,
}

/// The command of a command-line tool. Such tools are defined but never run.
#[derive(Clone, Debug)]
pub struct CliToolConfig {
    pub command: String,
}

/// A graph-query tool needs no settings: it uses the shared repository.
#[derive(Clone, Debug)]
pub struct CypherToolConfig {}

/// The three kinds of tool.
#[derive(Clone, Debug)]
pub enum ToolType {
    Http(HttpToolConfig),
    Cli(CliToolConfig),
    Cypher(CypherToolConfig),
}

impl ToolType {
    /// Whether a tool of this kind reads the knowledge repository.
    pub open spec fn needs_graph(self) -> bool {
        self is Cypher
    }

    /// Whether a tool of this kind reads the knowledge repository.
    pub fn requires_graph_access(&self) -> (r: bool)
        ensures
            r == self.needs_graph(),
    {
        match self {
            ToolType::Cypher(_) => true,
            _ => false,
        }
    }
}

/// A tool: who it is, the schema of its input as JSON text, and how it is
/// carried out.
#[derive(Clone, Debug)]
pub struct ToolDefinition {
    pub id: String,
    pub name: String,
    pub description: String,
    pub input_schema: String,
    pub implementation: ToolType,
}

/// A message for an agent.
#[derive(Clone, Debug)]
pub struct AgentChatRequest {
    pub agent_id: String,
    pub message: String,
}

/// An agent's answer, and the tools it used to reach it.
#[derive(Clone, Debug)]
pub struct AgentChatResponse {
    pub response: String,
    pub used_tools: Vec<String>,
}

/// Who said a remembered message.
#[derive(Clone, Copy, Debug, PartialEq, Eq, Structural)]
pub enum MessageRole {
    User,
    Assistant,
    System,
}

impl MessageRole {
    /// The role's name as the model provider expects it.
    pub open spec fn name_text(self) -> Seq<char> {
        match self {
            MessageRole::User => "user"@,
            MessageRole::Assistant => "assistant"@,
            MessageRole::System => "system"@,
        }
    }

    /// The role's name as the model provider expects it.
    pub fn to_string(&self) -> (r: String)
        ensures
            r@ == self.name_text(),
    {
        match self {
            MessageRole::User => String::from_str("user"),
            MessageRole::Assistant => String::from_str("assistant"),
            MessageRole::System => String::from_str("system"),
        }
    }
}

/// One remembered message of a conversation.
#[derive(Clone, Debug)]
pub struct ChatHistoryMessage {
    pub role: MessageRole,
    pub content: String,
    pub timestamp: String,
}

} // verus!
