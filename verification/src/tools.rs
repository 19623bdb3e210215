use crate::casing::uppercase_of;
use crate::encoding::{percent_encode, percent_encoded_text};
use crate::errors::AppError;
use crate::models::{HttpToolConfig, ToolDefinition, ToolType};
use crate::search::{replace_all, replaced};
use crate::text::{chars_of, is_text, join2, join3, push_text, string_of};
use vstd::prelude::*;
use vstd::string::StringExecFns;
use vstd::utf8::encode_utf8;

verus! {

/// The value of one argument of a tool call.
#[derive(Clone, Debug)]
pub enum ArgValue {
    /// A JSON string, without its quotes.
    Text(String),
    /// Any other JSON value, as JSON text.
    Other(String),
}

impl ArgValue {
    /// The value as it is written into a URL: a string as it is, another
    /// value as its JSON text.
    pub open spec fn rendering(self) -> Seq<char> {
        match self {
            ArgValue::Text(s) => s@,
            ArgValue::Other(j) => j@,
        }
    }

    /// The value as it is written into a URL.
    pub fn rendered(&self) -> (r: &String)
        ensures
            r@ == self.rendering(),
    {
        match self {
            ArgValue::Text(s) => s,
            ArgValue::Other(j) => j,
        }
    }
}

/// One member of the argument object of a tool call.
#[derive(Clone, Debug)]
pub struct ToolArg {
    pub key: String,
    pub value: ArgValue,
}

/// The arguments of a tool call: the members of the JSON object that the
/// model sent, in the object's order. Arguments that are no object have no
/// members.
#[derive(Clone, Debug)]
pub struct ToolArgs {
    pub entries: Vec<ToolArg>,
}

/// The placeholder that stands for the argument `key` in a URL template.
pub open spec fn placeholder(key: Seq<char>) -> Seq<char> {
    "{{input."@ + key + "}}"@
}

/// The URL template with the placeholder of each argument replaced by the
/// argument's value in percent encoding, the arguments taken in order.
pub open spec fn substituted(template: Seq<char>, entries: Seq<ToolArg>) -> Seq<char>
    decreases entries.len(),
{
    if entries.len() == 0 {
        template
    } else {
        let e = entries.last();
        replace_all(
            substituted(template, entries.drop_last()),
            placeholder(e.key@),
            percent_encoded_text(e.value.rendering()),
        )
    }
}

/// Fills the placeholders of a URL template from the arguments of a call.
pub fn resolve_url(template: &str, args: &ToolArgs) -> (r: String)
    ensures
        r@ == substituted(template@, args.entries@),
{
    let mut url: Vec<char> = chars_of(template);
    let mut i: usize = 0;
    assert(args.entries@.take(0) =~= Seq::<ToolArg>::empty());
    while i < args.entries.len()
        invariant
            i <= args.entries.len(),
            url@ == substituted(template@, args.entries@.take(i as int)),
        decreases args.entries.len() - i,
    {
        let entry: &ToolArg = &args.entries[i];
        let mut key: Vec<char> = chars_of("{{input.");
        push_text(&mut key, entry.key.as_str());
        push_text(&mut key, "}}");
        let encoded: String = percent_encode(entry.value.rendered().as_str());
        let value: Vec<char> = chars_of(encoded.as_str());
        url = replaced(&url, &key, &value);
        i = i + 1;
        proof {
            let upto = args.entries@.take(i as int);
            assert(upto.drop_last() =~= args.entries@.take(i - 1));
            assert(upto.last() == args.entries@[i - 1]);
        }
    }
    assert(args.entries@.take(args.entries.len() as int) =~= args.entries@);
    string_of(&url)
}

/// The HTTP methods that a tool can use.
#[derive(Clone, Copy, Debug, PartialEq, Eq, Structural)]
pub enum HttpVerb {
    Get,
    Post,
    Put,
}

/// The method that a name in capitals stands for: `POST`, `PUT`, and `GET`
/// for any other name.
pub open spec fn verb_named(upper: Seq<char>) -> HttpVerb {
    if upper == "POST"@ {
        HttpVerb::Post
    } else if upper == "PUT"@ {
        HttpVerb::Put
    } else {
        HttpVerb::Get
    }
}

/// The method that a name in capitals stands for.
pub fn verb_for(upper: &str) -> (r: HttpVerb)
    ensures
        r == verb_named(upper@),
{
    let name: Vec<char> = chars_of(upper);
    if is_text(&name, "POST") {
        HttpVerb::Post
    } else if is_text(&name, "PUT") {
        HttpVerb::Put
    } else {
        HttpVerb::Get
    }
}

/// The method that a tool's configuration names, whatever the case of its
/// letters.
pub fn http_verb(method: &str) -> (r: HttpVerb)
    ensures
        r == verb_named(uppercase_of(method@)),
{
    let upper: String = method.to_uppercase();
    verb_for(upper.as_str())
}

/// An HTTP request that a tool asks for. Where `with_body` holds, the
/// argument object is sent as the JSON body.
#[derive(Clone, Debug)]
pub struct HttpCall {
    pub verb: HttpVerb,
    pub url: String,
    pub with_body: bool,
}

/// The request that an HTTP tool makes for the given arguments.
pub fn plan_http_call(config: &HttpToolConfig, args: &ToolArgs) -> (r: HttpCall)
    ensures
        r.verb == verb_named(uppercase_of(config.method@)),
        r.url@ == substituted(config.url@, args.entries@),
        r.with_body == config.body_template.is_some(),
{
    HttpCall {
        verb: http_verb(config.method.as_str()),
        url: resolve_url(config.url.as_str(), args),
        with_body: config.body_template.is_some(),
    }
}

/// The text value of the first argument named `key`; none where no argument
/// has that name or the first that has it is no string.
pub open spec fn text_arg(entries: Seq<ToolArg>, key: Seq<char>) -> Option<Seq<char>>
    decreases entries.len(),
{
    if entries.len() == 0 {
        None
    } else if entries[0].key@ == key {
        match entries[0].value {
            ArgValue::Text(s) => Some(s@),
            ArgValue::Other(_) => None,
        }
    } else {
        text_arg(entries.drop_first(), key)
    }
}

/// The text value of the first argument named `key`, if it is a string.
pub fn find_text_arg<'a>(args: &'a ToolArgs, key: &str) -> (r: Option<&'a String>)
    ensures
        match r {
            Some(s) => text_arg(args.entries@, key@) == Some(s@),
            None => text_arg(args.entries@, key@) is None,
        },
{
    let wanted: Vec<char> = chars_of(key);
    let mut i: usize = 0;
    assert(args.entries@.skip(0) =~= args.entries@);
    while i < args.entries.len()
        invariant
            i <= args.entries.len(),
            wanted@ == key@,
            text_arg(args.entries@.skip(i as int), key@) == text_arg(args.entries@, key@),
        decreases args.entries.len() - i,
    {
        let entry: &'a ToolArg = &args.entries[i];
        let name: Vec<char> = chars_of(entry.key.as_str());
        let ghost rest = args.entries@.skip(i as int);
        assert(rest[0] == args.entries@[i as int]);
        if crate::text::same_chars(&name, &wanted) {
            return match &entry.value {
                ArgValue::Text(s) => Some(s),
                ArgValue::Other(_) => None,
            };
        }
        assert(rest.drop_first() =~= args.entries@.skip(i + 1));
        i = i + 1;
    }
    None
}

/// What a call of a graph tool asks of the repository.
#[derive(Clone, Debug)]
pub enum GraphRequest {
    /// A summary of the graph's schema.
    GetSchema,
    /// The result of a query that the caller wrote.
    RunQuery(String),
    /// The neighborhood of a concept.
    GetNeighborhood(String),
}

/// Whether the arguments ask for the schema: their `action` is the string
/// `get_schema`.
pub open spec fn asks_schema(entries: Seq<ToolArg>) -> bool {
    text_arg(entries, "action"@) == Some("get_schema"@)
}

/// Whether `r` is what the arguments ask for. A request for the schema goes
/// before a `query`, and a `query` before a `concept_name`; arguments with
/// none of the three ask for nothing.
pub open spec fn is_request_of(r: Option<GraphRequest>, entries: Seq<ToolArg>) -> bool {
    match r {
        Some(GraphRequest::GetSchema) => asks_schema(entries),
        Some(GraphRequest::RunQuery(q)) => {
            &&& !asks_schema(entries)
            &&& text_arg(entries, "query"@) == Some(q@)
        },
        Some(GraphRequest::GetNeighborhood(c)) => {
            &&& !asks_schema(entries)
            &&& text_arg(entries, "query"@) is None
            &&& text_arg(entries, "concept_name"@) == Some(c@)
        },
        None => {
            &&& !asks_schema(entries)
            &&& text_arg(entries, "query"@) is None
            &&& text_arg(entries, "concept_name"@) is None
        },
    }
}

/// Reads from the arguments of a graph tool what the call asks for.
pub fn decode_graph_request(args: &ToolArgs) -> (r: Option<GraphRequest>)
    ensures
        is_request_of(r, args.entries@),
{
    let action: Option<&String> = find_text_arg(args, "action");
    let schema: bool = match action {
        Some(a) => {
            let chars: Vec<char> = chars_of(a.as_str());
            is_text(&chars, "get_schema")
        },
        None => false,
    };
    if schema {
        return Some(GraphRequest::GetSchema);
    }
    match find_text_arg(args, "query") {
        Some(q) => Some(GraphRequest::RunQuery(q.clone())),
        None => match find_text_arg(args, "concept_name") {
            Some(c) => Some(GraphRequest::GetNeighborhood(c.clone())),
            None => None,
        },
    }
}

/// What is to be done for a tool call.
#[derive(Clone, Debug)]
pub enum ToolAction {
    /// Make this HTTP request and report the body of the response.
    CallHttp(HttpCall),
    /// Ask the repository for its schema.
    ReadSchema,
    /// Ask the repository to run this query.
    RunQuery(String),
    /// Ask the repository for the neighborhood of this concept.
    ReadNeighborhood(String),
    /// Nothing is to be done outside: the call is answered with this text.
    Answer(String),
    /// Nothing is to be done outside: the call fails with this error.
    Refuse(AppError),
}

/// What a graph tool answers when it has no repository or its arguments ask
/// for nothing it knows.
pub open spec fn graph_misuse_text() -> Seq<char> {
    "Error de configuración de herramienta Cypher."@
}

/// Why a command-line tool is refused.
pub open spec fn cli_refusal_text() -> Seq<char> {
    "CLI tools disabled"@
}

/// Whether `action` is what a graph tool does for the arguments: what they
/// ask for if the tool holds the repository, and the misuse answer
/// otherwise or where they ask for nothing.
pub open spec fn is_graph_action(
    action: ToolAction,
    has_repository: bool,
    entries: Seq<ToolArg>,
) -> bool {
    match action {
        ToolAction::ReadSchema => has_repository && is_request_of(
            Some(GraphRequest::GetSchema),
            entries,
        ),
        ToolAction::RunQuery(q) => has_repository && is_request_of(
            Some(GraphRequest::RunQuery(q)),
            entries,
        ),
        ToolAction::ReadNeighborhood(c) => has_repository && is_request_of(
            Some(GraphRequest::GetNeighborhood(c)),
            entries,
        ),
        ToolAction::Answer(t) => {
            &&& t@ == graph_misuse_text()
            &&& !has_repository || is_request_of(None, entries)
        },
        _ => false,
    }
}

/// Whether `action` is what the tool `definition` does for the arguments.
/// An HTTP tool makes its request. A graph tool asks the repository. A
/// command-line tool is refused with a configuration error, whatever the
/// arguments.
pub open spec fn is_action_of(
    action: ToolAction,
    definition: ToolDefinition,
    has_repository: bool,
    entries: Seq<ToolArg>,
) -> bool {
    match definition.implementation {
        ToolType::Http(config) => {
            &&& action matches ToolAction::CallHttp(call)
            &&& call.verb == verb_named(uppercase_of(config.method@))
            &&& call.url@ == substituted(config.url@, entries)
            &&& call.with_body == (config.body_template is Some)
        },
        ToolType::Cypher(_) => is_graph_action(action, has_repository, entries),
        ToolType::Cli(_) => {
            &&& action matches ToolAction::Refuse(AppError::ConfigError(m))
            &&& m@ == cli_refusal_text()
        },
    }
}

/// Decides what is to be done for a call of the tool `definition` with the
/// arguments `args`. `has_repository` says whether the tool was bound with
/// access to the knowledge repository.
pub fn plan_tool_call(definition: &ToolDefinition, has_repository: bool, args: &ToolArgs) -> (r:
    ToolAction)
    ensures
        is_action_of(r, *definition, has_repository, args.entries@),
{
    match &definition.implementation {
        ToolType::Http(config) => ToolAction::CallHttp(plan_http_call(config, args)),
        ToolType::Cli(_) => ToolAction::Refuse(
            AppError::ConfigError(String::from_str("CLI tools disabled")),
        ),
        ToolType::Cypher(_) => {
            if !has_repository {
                return ToolAction::Answer(
                    String::from_str("Error de configuración de herramienta Cypher."),
                );
            }
            match decode_graph_request(args) {
                Some(GraphRequest::GetSchema) => ToolAction::ReadSchema,
                Some(GraphRequest::RunQuery(q)) => ToolAction::RunQuery(q),
                Some(GraphRequest::GetNeighborhood(c)) => ToolAction::ReadNeighborhood(c),
                None => ToolAction::Answer(
                    String::from_str("Error de configuración de herramienta Cypher."),
                ),
            }
        },
    }
}

/// A command-line tool is refused with a configuration error whatever the
/// arguments and whether or not the repository is at hand.
pub proof fn lemma_cli_always_refused(
    action: ToolAction,
    definition: ToolDefinition,
    has_repository: bool,
    entries: Seq<ToolArg>,
)
    requires
        definition.implementation is Cli,
        is_action_of(action, definition, has_repository, entries),
    ensures
        action matches ToolAction::Refuse(e) && e is ConfigError,
{
}

/// What a tool call ends in once the HTTP request was made: the body of the
/// response, whatever its status, or an error of the model provider's kind
/// that carries the words of the transport failure.
pub fn http_result(outcome: Result<String, String>) -> (r: Result<String, AppError>)
    ensures
        match outcome {
            Ok(body) => r == Ok::<String, AppError>(body),
            Err(failure) => r == Err::<String, AppError>(AppError::AIError(failure)),
        },
{
    match outcome {
        Ok(body) => Ok(body),
        Err(failure) => Err(AppError::AIError(failure)),
    }
}

/// What a repository task ended in: the repository's reply, or the words
/// with which the task itself failed.
pub enum TaskOutcome {
    Finished(Result<String, AppError>),
    Aborted(String),
}

/// The words that introduce a task's own failure.
pub open spec fn task_failure_heading() -> Seq<char> {
    "Task Join Error: "@
}

/// The error that a failed repository task is reported with: a database
/// error that carries the repository error's full text, or the task's own
/// failure after its heading. None where the task gave a reply.
pub open spec fn task_error_cause(outcome: TaskOutcome) -> Option<Seq<char>> {
    match outcome {
        TaskOutcome::Finished(Ok(_)) => None,
        TaskOutcome::Finished(Err(e)) => Some(e.text()),
        TaskOutcome::Aborted(why) => Some(task_failure_heading() + why@),
    }
}

/// What a schema or query call ends in: the repository's reply as it is, or
/// a database error.
pub fn graph_result(outcome: TaskOutcome) -> (r: Result<String, AppError>)
    ensures
        match r {
            Ok(reply) => outcome == TaskOutcome::Finished(Ok(reply)),
            Err(AppError::DatabaseError(cause)) => task_error_cause(outcome) == Some(cause@),
            Err(_) => false,
        },
{
    match outcome {
        TaskOutcome::Finished(Ok(reply)) => Ok(reply),
        TaskOutcome::Finished(Err(e)) => Err(AppError::DatabaseError(e.message())),
        TaskOutcome::Aborted(why) => Err(
            AppError::DatabaseError(join2("Task Join Error: ", why.as_str())),
        ),
    }
}

/// A serialized neighborhood of fewer bytes than this holds no data.
pub const EMPTY_NEIGHBORHOOD_BYTES: usize = 50;

/// What is answered for a concept of which the graph holds nothing.
pub open spec fn no_data_text(concept: Seq<char>) -> Seq<char> {
    "No se encontraron datos para '"@ + concept + "'."@
}

/// The answer for a serialized neighborhood: the text itself, or the
/// no-data sentence where it is shorter than the threshold.
pub open spec fn neighborhood_text(concept: Seq<char>, serialized: Seq<char>) -> Seq<char> {
    if encode_utf8(serialized).len() < EMPTY_NEIGHBORHOOD_BYTES {
        no_data_text(concept)
    } else {
        serialized
    }
}

/// What a neighborhood call ends in: the serialized neighborhood, or the
/// no-data sentence where the graph holds nothing of the concept, or a
/// database error.
pub fn neighborhood_result(concept: &str, outcome: TaskOutcome) -> (r: Result<String, AppError>)
    ensures
        match r {
            Ok(reply) => outcome matches TaskOutcome::Finished(Ok(serialized)) && reply@
                == neighborhood_text(concept@, serialized@),
            Err(AppError::DatabaseError(cause)) => task_error_cause(outcome) == Some(cause@),
            Err(_) => false,
        },
{
    match outcome {
        TaskOutcome::Finished(Ok(serialized)) => {
            let size: usize = serialized.as_str().as_bytes().len();
            assert(size == encode_utf8(serialized@).len());
            if size < EMPTY_NEIGHBORHOOD_BYTES {
                Ok(join3("No se encontraron datos para '", concept, "'."))
            } else {
                Ok(serialized)
            }
        },
        other => graph_result(other),
    }
}

/// The words that introduce a failed tool call in what the model is told.
pub open spec fn observation_heading() -> Seq<char> {
    "Error: "@
}

/// What the model is told of a tool call: the tool's reply, or the error's
/// full text after a heading, so that the model can try again.
pub open spec fn observation_text(result: Result<String, AppError>) -> Seq<char> {
    match result {
        Ok(reply) => reply@,
        Err(e) => observation_heading() + e.text(),
    }
}

/// Turns the result of a tool call into the observation that the model is
/// given. A failed call becomes a text too: it never ends the turn.
pub fn observation_of(result: Result<String, AppError>) -> (r: String)
    ensures
        r@ == observation_text(result),
{
    match result {
        Ok(reply) => reply,
        Err(e) => {
            let text: String = e.message();
            join2("Error: ", text.as_str())
        },
    }
}

} // verus!
