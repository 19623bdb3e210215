use crate::models::HybridContext;
use crate::search::{replace_all, replaced, strip_suffixes, without_suffixes};
use crate::text::{
    chars_of, copy_range, decimal, push_all, push_decimal, push_text, string_of, trim, trim_end,
    trimmed, trimmed_end, CharClass,
};
use crate::transmutation::joined;
use vstd::prelude::*;

verus! {

/// How many fragments the plain chat retrieves.
pub const CHAT_FRAGMENTS: usize = 5;

/// How many characters of a fragment a source reference shows.
pub const EXCERPT_CHARS: usize = 200;

/// A fragment's text on one line: each line end replaced by a space, and
/// the white space at both ends removed.
pub open spec fn flat(content: Seq<char>) -> Seq<char> {
    trim(replace_all(content, seq!['\n'], seq![' ']), CharClass::Space)
}

/// The first characters of a text, up to the length of an excerpt.
pub open spec fn excerpt(text: Seq<char>) -> Seq<char> {
    if text.len() <= EXCERPT_CHARS {
        text
    } else {
        text.take(EXCERPT_CHARS as int)
    }
}

/// The line that opens the evidence given to the model.
pub open spec fn evidence_heading() -> Seq<char> {
    "EVIDENCIA RECUPERADA DEL SISTEMA:\n"@
}

/// The evidence entry of the fragment with the given number: its text on
/// one line, and the names of its entities with commas between them.
pub open spec fn evidence_entry(number: nat, fragment: HybridContext) -> Seq<char> {
    "FUENTE ["@ + decimal(number) + "]:\n- Texto: \""@ + flat(fragment.content@)
        + "\"\n- Entidades Clave en Grafo: ["@ + joined(
        fragment.connected_entities.deep_view(),
        ", "@,
    ) + "]\n\n"@
}

/// The evidence entries of the fragments, numbered from one.
pub open spec fn evidence_entries(fragments: Seq<HybridContext>) -> Seq<char>
    decreases fragments.len(),
{
    if fragments.len() == 0 {
        Seq::empty()
    } else {
        evidence_entries(fragments.drop_last()) + evidence_entry(
            fragments.len(),
            fragments.last(),
        )
    }
}

/// The evidence given to the model: the heading, then the entries.
pub open spec fn evidence_text(fragments: Seq<HybridContext>) -> Seq<char> {
    evidence_heading() + evidence_entries(fragments)
}

/// What the caller is shown of one source. The relevance that goes with it
/// is added by whoever answers the caller.
#[derive(Clone, Debug)]
pub struct SourceExcerpt {
    pub index: usize,
    pub chunk_id: String,
    pub short_content: String,
    pub concepts: Vec<String>,
}

/// Whether `sources` shows `fragments`: one source for each fragment, in
/// order and numbered from one, with the fragment's identifier, the excerpt
/// of its text on one line, and its entities.
pub open spec fn shows(sources: Seq<SourceExcerpt>, fragments: Seq<HybridContext>) -> bool {
    &&& sources.len() == fragments.len()
    &&& forall|i: int|
        0 <= i < sources.len() ==> {
            &&& (#[trigger] sources[i]).index == i + 1
            &&& sources[i].chunk_id@ == fragments[i].chunk_id@
            &&& sources[i].short_content@ == excerpt(flat(fragments[i].content@))
            &&& sources[i].concepts.deep_view() == fragments[i].connected_entities.deep_view()
        }
}

/// The evidence and the sources of an answer.
#[derive(Clone, Debug)]
pub struct Evidence {
    pub text: String,
    pub sources: Vec<SourceExcerpt>,
}

/// A fragment's text on one line.
pub fn flatten(content: &str) -> (r: Vec<char>)
    ensures
        r@ == flat(content@),
{
    let v: Vec<char> = chars_of(content);
    let mut line_end: Vec<char> = Vec::new();
    line_end.push('\n');
    let mut space: Vec<char> = Vec::new();
    space.push(' ');
    assert(line_end@ =~= seq!['\n']);
    assert(space@ =~= seq![' ']);
    let one_line: Vec<char> = replaced(&v, &line_end, &space);
    trimmed(&one_line, CharClass::Space)
}

/// Appends the texts to `out` with `sep` between each two.
pub fn push_joined(out: &mut Vec<char>, items: &Vec<String>, sep: &str)
    ensures
        final(out)@ == old(out)@ + joined(items.deep_view(), sep@),
{
    let ghost all = items.deep_view();
    let ghost head = out@;
    let mut i: usize = 0;
    assert(all.take(0) =~= Seq::<Seq<char>>::empty());
    assert(head + Seq::<char>::empty() =~= head);
    while i < items.len()
        invariant
            i <= items.len(),
            all == items.deep_view(),
            all.len() == items.len(),
            out@ == head + joined(all.take(i as int), sep@),
        decreases items.len() - i,
    {
        if i > 0 {
            push_text(out, sep);
        }
        push_text(out, items[i].as_str());
        i = i + 1;
        proof {
            let upto = all.take(i as int);
            assert(upto.drop_last() =~= all.take(i - 1));
            assert(upto.last() == items@[i - 1]@);
            if i == 1 {
                assert(upto[0] == items@[0]@);
                assert(out@ =~= head + upto[0]);
            } else {
                assert(out@ =~= head + (joined(all.take(i - 1), sep@) + sep@ + upto.last()));
            }
        }
    }
    assert(all.take(items.len() as int) =~= all);
}

/// A copy of the texts.
pub fn copy_texts(items: &Vec<String>) -> (r: Vec<String>)
    ensures
        r.deep_view() == items.deep_view(),
{
    let mut out: Vec<String> = Vec::new();
    let mut i: usize = 0;
    while i < items.len()
        invariant
            i <= items.len(),
            out@.len() == i,
            forall|j: int| 0 <= j < i ==> out@[j]@ == items@[j]@,
        decreases items.len() - i,
    {
        out.push(items[i].clone());
        i = i + 1;
    }
    assert(out.deep_view() =~= items.deep_view());
    out
}

/// Appends the evidence entry of a fragment to `text`.
pub fn push_entry(text: &mut Vec<char>, number: usize, fragment: &HybridContext)
    ensures
        final(text)@ == old(text)@ + evidence_entry(number as nat, *fragment),
{
    let line: Vec<char> = flatten(fragment.content.as_str());
    push_text(text, "FUENTE [");
    push_decimal(text, number);
    push_text(text, "]:\n- Texto: \"");
    push_all(text, &line);
    push_text(text, "\"\n- Entidades Clave en Grafo: [");
    push_joined(text, &fragment.connected_entities, ", ");
    push_text(text, "]\n\n");
    assert(text@ =~= old(text)@ + evidence_entry(number as nat, *fragment));
}

/// What the caller is shown of a fragment under the given number.
pub fn source_of(number: usize, fragment: &HybridContext) -> (r: SourceExcerpt)
    ensures
        r.index == number,
        r.chunk_id@ == fragment.chunk_id@,
        r.short_content@ == excerpt(flat(fragment.content@)),
        r.concepts.deep_view() == fragment.connected_entities.deep_view(),
{
    let line: Vec<char> = flatten(fragment.content.as_str());
    let shown: usize = if line.len() <= EXCERPT_CHARS {
        line.len()
    } else {
        EXCERPT_CHARS
    };
    let short: Vec<char> = copy_range(&line, 0, shown);
    assert(short@ =~= excerpt(line@));
    SourceExcerpt {
        index: number,
        chunk_id: fragment.chunk_id.clone(),
        short_content: string_of(&short),
        concepts: copy_texts(&fragment.connected_entities),
    }
}

/// Renders the retrieved fragments as the evidence for the model and as
/// the sources for the caller.
pub fn render_evidence(fragments: &Vec<HybridContext>) -> (r: Evidence)
    ensures
        r.text@ == evidence_text(fragments@),
        shows(r.sources@, fragments@),
{
    let mut text: Vec<char> = chars_of("EVIDENCIA RECUPERADA DEL SISTEMA:\n");
    let mut sources: Vec<SourceExcerpt> = Vec::new();
    let ghost head = text@;
    let mut i: usize = 0;
    assert(fragments@.take(0) =~= Seq::<HybridContext>::empty());
    assert(head + Seq::<char>::empty() =~= head);
    while i < fragments.len()
        invariant
            i <= fragments.len(),
            text@ == head + evidence_entries(fragments@.take(i as int)),
            shows(sources@, fragments@.take(i as int)),
        decreases fragments.len() - i,
    {
        let ghost before = sources@;
        let ghost told = text@;
        let fragment: &HybridContext = &fragments[i];
        push_entry(&mut text, i + 1, fragment);
        sources.push(source_of(i + 1, fragment));
        i = i + 1;
        proof {
            let upto = fragments@.take(i as int);
            assert(upto.drop_last() =~= fragments@.take(i - 1));
            assert(upto.last() == fragments@[i - 1]);
            assert(text@ =~= head + (evidence_entries(upto.drop_last()) + evidence_entry(
                upto.len(),
                upto.last(),
            )));
            assert forall|j: int| 0 <= j < sources@.len() implies {
                &&& (#[trigger] sources@[j]).index == j + 1
                &&& sources@[j].chunk_id@ == upto[j].chunk_id@
                &&& sources@[j].short_content@ == excerpt(flat(upto[j].content@))
                &&& sources@[j].concepts.deep_view() == upto[j].connected_entities.deep_view()
            } by {
                if j < before.len() {
                    assert(sources@[j] == before[j]);
                    assert(fragments@.take(i - 1)[j] == upto[j]);
                }
            }
        }
    }
    assert(fragments@.take(fragments.len() as int) =~= fragments@);
    Evidence { text: string_of(&text), sources }
}

/// What stands before the evidence in the system prompt of the plain chat.
pub open spec fn chat_prompt_opening() -> Seq<char> {
    "\n        Actúa como \"LaMuralla AI\", un asistente experto en análisis clínico y social.\n        \n        TU TAREA:\n        Responder a la pregunta del usuario basándote EXCLUSIVAMENTE en las FUENTES proporcionadas.\n        \n        REGLAS DE RESPUESTA:\n        1. Tono profesional, empático y basado en evidencia.\n        2. CITAS OBLIGATORIAS: Cada afirmación debe estar respaldada por su fuente.\n           - Formato: \"El paciente muestra mejora en autonomía [1], relacionado con su asistencia al taller [2].\"\n           - Usa [n] al final de las frases.\n        3. Si la información no está en las fuentes, di explícitamente: \"No tengo evidencia registrada sobre esto.\"\n        4. Usa Markdown para negritas y listas.\n        \n        CONTEXTO:\n        "@
}

/// What stands after the evidence in the system prompt of the plain chat.
pub open spec fn chat_prompt_closing() -> Seq<char> {
    "\n        "@
}

/// The system prompt of the plain chat around the given evidence.
pub fn chat_system_prompt(evidence: &str) -> (r: String)
    ensures
        r@ == chat_prompt_opening() + evidence@ + chat_prompt_closing(),
{
    crate::text::join3(
        "\n        Actúa como \"LaMuralla AI\", un asistente experto en análisis clínico y social.\n        \n        TU TAREA:\n        Responder a la pregunta del usuario basándote EXCLUSIVAMENTE en las FUENTES proporcionadas.\n        \n        REGLAS DE RESPUESTA:\n        1. Tono profesional, empático y basado en evidencia.\n        2. CITAS OBLIGATORIAS: Cada afirmación debe estar respaldada por su fuente.\n           - Formato: \"El paciente muestra mejora en autonomía [1], relacionado con su asistencia al taller [2].\"\n           - Usa [n] al final de las frases.\n        3. Si la información no está en las fuentes, di explícitamente: \"No tengo evidencia registrada sobre esto.\"\n        4. Usa Markdown para negritas y listas.\n        \n        CONTEXTO:\n        ",
        evidence,
        "\n        ",
    )
}

/// The provider's address as the plain chat uses it: without `/v1` at its
/// end, however often it stands there, and then without slashes at its end.
pub open spec fn chat_base(raw: Seq<char>) -> Seq<char> {
    trim_end(strip_suffixes(raw, "/v1"@), CharClass::Only('/'))
}

/// The provider's address as the plain chat uses it.
pub fn chat_base_url(raw: &str) -> (r: String)
    ensures
        r@ == chat_base(raw@),
{
    let v: Vec<char> = chars_of(raw);
    let suffix: Vec<char> = chars_of("/v1");
    let cut: Vec<char> = without_suffixes(&v, &suffix);
    let out: Vec<char> = trimmed_end(&cut, CharClass::Only('/'));
    string_of(&out)
}

} // verus!
