use crate::models::{ChatHistoryMessage, HybridContext};
use crate::text::{chars_of, push_all, push_text, string_of, trim, trimmed, CharClass};
use vstd::prelude::*;

verus! {

/// How many earlier messages of a conversation the model is shown.
pub const HISTORY_WINDOW: usize = 10;

/// The line that opens the context block of a preamble.
pub open spec fn context_heading() -> Seq<char> {
    "\n\n### CONTEXTO (BASE DE DATOS):\n"@
}

/// The line that stands in the context block where nothing was found, so
/// that the model is told so.
pub open spec fn no_context_line() -> Seq<char> {
    "(sin contexto relevante)\n"@
}

/// The line that closes the context block.
pub open spec fn context_footing() -> Seq<char> {
    "---\n"@
}

/// The bullet for one fragment: its text, trimmed, in quotes.
pub open spec fn bullet(content: Seq<char>) -> Seq<char> {
    "- \""@ + trim(content, CharClass::Space) + "\"\n"@
}

/// The bullets of the fragments, one after the other.
pub open spec fn bullets(fragments: Seq<HybridContext>) -> Seq<char>
    decreases fragments.len(),
{
    if fragments.len() == 0 {
        Seq::empty()
    } else {
        bullets(fragments.drop_last()) + bullet(fragments.last().content@)
    }
}

/// The context block: the heading, a bullet for each fragment or the line
/// that says there is none, and the footing.
pub open spec fn context_block(fragments: Seq<HybridContext>) -> Seq<char> {
    let body = if fragments.len() == 0 {
        no_context_line()
    } else {
        bullets(fragments)
    };
    context_heading() + body + context_footing()
}

/// The preamble: the agent's system prompt, then the context block.
pub open spec fn preamble_text(system_prompt: Seq<char>, fragments: Seq<HybridContext>) -> Seq<
    char,
> {
    system_prompt + context_block(fragments)
}

/// One message as the completion engine takes it.
#[derive(Clone, Debug)]
pub struct PromptMessage {
    pub role: String,
    pub content: String,
}

/// The last `window` messages, or all where they are fewer.
pub open spec fn recent(history: Seq<ChatHistoryMessage>, window: nat) -> Seq<
    ChatHistoryMessage,
> {
    if history.len() <= window {
        history
    } else {
        history.skip(history.len() - window)
    }
}

/// Whether `messages` renders `history`: one message for each remembered
/// one, in order, with the role's name and the same content.
pub open spec fn renders(messages: Seq<PromptMessage>, history: Seq<ChatHistoryMessage>) -> bool {
    &&& messages.len() == history.len()
    &&& forall|i: int|
        0 <= i < messages.len() ==> {
            &&& (#[trigger] messages[i]).role@ == history[i].role.name_text()
            &&& messages[i].content@ == history[i].content@
        }
}

/// What the completion engine is given besides the tools and the user's
/// message.
#[derive(Clone, Debug)]
pub struct AssembledPrompt {
    pub preamble: String,
    pub history: Vec<PromptMessage>,
}

/// The context block of a preamble.
pub fn render_context(fragments: &Vec<HybridContext>) -> (r: Vec<char>)
    ensures
        r@ == context_block(fragments@),
{
    let mut out: Vec<char> = chars_of("\n\n### CONTEXTO (BASE DE DATOS):\n");
    if fragments.len() == 0 {
        push_text(&mut out, "(sin contexto relevante)\n");
    } else {
        let ghost head = out@;
        let mut i: usize = 0;
        assert(fragments@.take(0) =~= Seq::<HybridContext>::empty());
        assert(head + Seq::<char>::empty() =~= head);
        while i < fragments.len()
            invariant
                i <= fragments.len(),
                out@ == head + bullets(fragments@.take(i as int)),
            decreases fragments.len() - i,
        {
            let content: Vec<char> = chars_of(fragments[i].content.as_str());
            let inner: Vec<char> = trimmed(&content, CharClass::Space);
            push_text(&mut out, "- \"");
            push_all(&mut out, &inner);
            push_text(&mut out, "\"\n");
            i = i + 1;
            proof {
                let upto = fragments@.take(i as int);
                assert(upto.drop_last() =~= fragments@.take(i - 1));
                assert(upto.last() == fragments@[i - 1]);
                assert(out@ =~= head + bullets(upto));
            }
        }
        assert(fragments@.take(fragments.len() as int) =~= fragments@);
    }
    push_text(&mut out, "---\n");
    out
}

/// The last `window` messages of a conversation as the completion engine
/// takes them, the latest last.
pub fn render_history(history: &Vec<ChatHistoryMessage>, window: usize) -> (r: Vec<PromptMessage>)
    ensures
        renders(r@, recent(history@, window as nat)),
        r@.len() <= window,
{
    let n: usize = history.len();
    let first: usize = if n <= window {
        0
    } else {
        n - window
    };
    let ghost shown = recent(history@, window as nat);
    assert(shown =~= history@.skip(first as int));
    let mut out: Vec<PromptMessage> = Vec::new();
    let mut i: usize = first;
    while i < n
        invariant
            first <= i <= n,
            n == history.len(),
            shown == history@.skip(first as int),
            renders(out@, shown.take(i - first)),
        decreases n - i,
    {
        let ghost before = out@;
        let message: &ChatHistoryMessage = &history[i];
        out.push(PromptMessage { role: message.role.to_string(), content: message.content.clone() });
        i = i + 1;
        assert forall|j: int| 0 <= j < out@.len() implies {
            &&& (#[trigger] out@[j]).role@ == shown.take(i - first)[j].role.name_text()
            &&& out@[j].content@ == shown.take(i - first)[j].content@
        } by {
            if j < before.len() {
                assert(out@[j] == before[j]);
                assert(shown.take(i - first - 1)[j] == shown[j]);
            }
        }
    }
    assert(shown.take(n - first) =~= shown);
    out
}

/// Assembles what the completion engine is given for a turn: the preamble,
/// made of the agent's system prompt and the context block, and the last
/// messages of the conversation. The tools are no part of it.
pub fn assemble(
    system_prompt: &str,
    fragments: &Vec<HybridContext>,
    history: &Vec<ChatHistoryMessage>,
) -> (r: AssembledPrompt)
    ensures
        r.preamble@ == preamble_text(system_prompt@, fragments@),
        renders(r.history@, recent(history@, HISTORY_WINDOW as nat)),
{
    let mut out: Vec<char> = chars_of(system_prompt);
    let block: Vec<char> = render_context(fragments);
    push_all(&mut out, &block);
    AssembledPrompt { preamble: string_of(&out), history: render_history(history, HISTORY_WINDOW) }
}

} // verus!
