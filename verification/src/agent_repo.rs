use crate::errors::AppError;
use crate::text::{chars_of, push_text, string_of, trim_end, trimmed_end, CharClass};
use vstd::prelude::*;

verus! {

/// Where the agent and tool definitions lie: a directory with one YAML file
/// for each agent under `agents/` and for each tool under `tools/`.
pub struct FileAgentRepository {
    base_path: String,
}

/// The path of the definition `id` of the given kind below `base`.
pub open spec fn definition_path(base: Seq<char>, kind: Seq<char>, id: Seq<char>) -> Seq<char> {
    base + "/"@ + kind + "/"@ + id + ".yaml"@
}

/// The pattern that matches every definition of the given kind below `base`.
pub open spec fn definition_pattern(base: Seq<char>, kind: Seq<char>) -> Seq<char> {
    definition_path(base, kind, "*"@)
}

impl FileAgentRepository {
    /// The directory, without a slash at its end.
    pub closed spec fn base(&self) -> Seq<char> {
        self.base_path@
    }

    /// A repository over the directory `base_path`. Slashes at the end of
    /// the path are dropped, so that no path below it gets two in a row.
    pub fn new(base_path: &str) -> (r: Self)
        ensures
            r.base() == trim_end(base_path@, CharClass::Only('/')),
    {
        let given: Vec<char> = chars_of(base_path);
        let kept: Vec<char> = trimmed_end(&given, CharClass::Only('/'));
        FileAgentRepository { base_path: string_of(&kept) }
    }

    /// The directory, without a slash at its end.
    pub fn base_path(&self) -> (r: &str)
        ensures
            r@ == self.base(),
    {
        self.base_path.as_str()
    }

    fn path_of(&self, kind: &str, id: &str) -> (r: String)
        ensures
            r@ == definition_path(self.base(), kind@, id@),
    {
        let mut out: Vec<char> = chars_of(self.base_path.as_str());
        push_text(&mut out, "/");
        push_text(&mut out, kind);
        push_text(&mut out, "/");
        push_text(&mut out, id);
        push_text(&mut out, ".yaml");
        string_of(&out)
    }

    /// The file that defines the agent `id`.
    pub fn agent_path(&self, id: &str) -> (r: String)
        ensures
            r@ == definition_path(self.base(), "agents"@, id@),
    {
        self.path_of("agents", id)
    }

    /// The file that defines the tool `id`.
    pub fn tool_path(&self, id: &str) -> (r: String)
        ensures
            r@ == definition_path(self.base(), "tools"@, id@),
    {
        self.path_of("tools", id)
    }

    /// The pattern that matches the files of all agents.
    pub fn agents_pattern(&self) -> (r: String)
        ensures
            r@ == definition_pattern(self.base(), "agents"@),
    {
        self.path_of("agents", "*")
    }

    /// The pattern that matches the files of all tools.
    pub fn tools_pattern(&self) -> (r: String)
        ensures
            r@ == definition_pattern(self.base(), "tools"@),
    {
        self.path_of("tools", "*")
    }
}

/// The cause given for a definition whose file cannot be read.
pub open spec fn missing_text(what: Seq<char>, path: Seq<char>) -> Seq<char> {
    what + " file not found: "@ + path
}

/// The cause given for a definition whose file is no valid YAML.
pub open spec fn malformed_text(path: Seq<char>, detail: Seq<char>) -> Seq<char> {
    "YAML Error in "@ + path + ": "@ + detail
}

/// The error for a definition whose file cannot be read. `what` names the
/// kind of definition, `Agent` or `Tool`.
pub fn missing_definition(what: &str, path: &str) -> (r: AppError)
    ensures
        r matches AppError::NotFound(cause) && cause@ == missing_text(what@, path@),
{
    let mut out: Vec<char> = chars_of(what);
    push_text(&mut out, " file not found: ");
    push_text(&mut out, path);
    AppError::NotFound(string_of(&out))
}

/// The error for a definition whose file is no valid YAML. `detail` is what
/// the parser said.
pub fn malformed_definition(path: &str, detail: &str) -> (r: AppError)
    ensures
        r matches AppError::ParseError(cause) && cause@ == malformed_text(path@, detail@),
{
    let mut out: Vec<char> = chars_of("YAML Error in ");
    push_text(&mut out, path);
    push_text(&mut out, ": ");
    push_text(&mut out, detail);
    AppError::ParseError(string_of(&out))
}

} // verus!
