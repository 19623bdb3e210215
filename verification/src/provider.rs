use crate::casing::lowercase_of;
use crate::models::AIProvider;
use crate::search::{
    find_last, last_index, lemma_last_index, occurs_at, piece_end, piece_len, strip_suffixes,
    without_suffixes,
};
use crate::text::{
    chars_of, copy_range, is_text, join2, push_text, string_of, trim_end, trimmed_end, CharClass,
};
use vstd::prelude::*;

verus! {

/// The text that the standard base64 engine of the `base64` crate encodes
/// the bytes to: the standard alphabet, with padding.
pub uninterp spec fn base64_of(data: Seq<u8>) -> Seq<char>;

/// Calls `encode` of `base64::engine::general_purpose::STANDARD`. The
/// contract claims no more than that the outcome depends on the bytes
/// alone. Bytes whose encoding would be longer than a text can be are left
/// out: the call does not return for them.
#[verifier::external_body]
fn base64_encode(data: &[u8]) -> (r: String)
    requires
        (data@.len() + 2) / 3 <= usize::MAX / 4,
    ensures
        r@ == base64_of(data@),
{
    base64::Engine::encode(&base64::engine::general_purpose::STANDARD, data)
}

/// The provider's address where none is configured.
pub open spec fn default_base() -> Seq<char> {
    "https://api.openai.com/v1"@
}

/// The configured address, or the default one.
pub open spec fn base_or_default(base_url: Option<String>) -> Seq<char> {
    match base_url {
        Some(base) => base@,
        None => default_base(),
    }
}

/// The address that the completion engine is given: the configured one
/// without slashes at its end and then without `/v1` at its end, since the
/// engine adds that part itself.
pub open spec fn engine_base(base_url: Option<String>) -> Seq<char> {
    strip_suffixes(trim_end(base_or_default(base_url), CharClass::Only('/')), "/v1"@)
}

/// The address to which texts are sent for embedding.
pub open spec fn embeddings_address(base_url: Option<String>) -> Seq<char> {
    trim_end(base_or_default(base_url), CharClass::Only('/')) + "/embeddings"@
}

fn base_chars(base_url: &Option<String>) -> (r: Vec<char>)
    ensures
        r@ == base_or_default(*base_url),
{
    match base_url {
        Some(base) => chars_of(base.as_str()),
        None => chars_of("https://api.openai.com/v1"),
    }
}

/// The address that the completion engine is given.
pub fn engine_base_url(base_url: &Option<String>) -> (r: String)
    ensures
        r@ == engine_base(*base_url),
{
    let raw: Vec<char> = base_chars(base_url);
    let no_slash: Vec<char> = trimmed_end(&raw, CharClass::Only('/'));
    let suffix: Vec<char> = chars_of("/v1");
    let out: Vec<char> = without_suffixes(&no_slash, &suffix);
    string_of(&out)
}

/// The address to which texts are sent for embedding.
pub fn embeddings_url(base_url: &Option<String>) -> (r: String)
    ensures
        r@ == embeddings_address(*base_url),
{
    let raw: Vec<char> = base_chars(base_url);
    let mut out: Vec<char> = trimmed_end(&raw, CharClass::Only('/'));
    push_text(&mut out, "/embeddings");
    string_of(&out)
}

/// The address to which completions are sent: the engine's address with
/// the version and the path of the completions put back.
pub open spec fn completions_address(base_url: Option<String>) -> Seq<char> {
    engine_base(base_url) + "/v1/chat/completions"@
}

/// The address to which completions are sent.
pub fn completions_url(base_url: &Option<String>) -> (r: String)
    ensures
        r@ == completions_address(*base_url),
{
    let base: String = engine_base_url(base_url);
    join2(base.as_str(), "/v1/chat/completions")
}

/// The value of the header that authorizes a request with the given key.
pub fn bearer(api_key: &str) -> (r: String)
    ensures
        r@ == "Bearer "@ + api_key@,
{
    join2("Bearer ", api_key)
}

/// The part of a reply that is taken for its JSON object: from the first
/// `{`, or the start where there is none, to the last `}`, or the end where
/// there is none; the whole reply where that part would be empty.
pub open spec fn json_span(raw: Seq<char>) -> Seq<char> {
    let first = piece_len(raw, '{');
    let start = if first < raw.len() {
        first as int
    } else {
        0
    };
    let last = last_index(raw, seq!['}']);
    let end = if last >= 0 {
        last + 1
    } else {
        raw.len() as int
    };
    if start >= end {
        raw
    } else {
        raw.subrange(start, end)
    }
}

/// Takes the JSON object out of a model's reply, which may wrap it in
/// other text.
pub fn clean_json_response(raw: &str) -> (r: String)
    ensures
        r@ == json_span(raw@),
{
    let v: Vec<char> = chars_of(raw);
    let n: usize = v.len();
    assert(v@.skip(0) =~= v@);
    let first: usize = piece_end(&v, 0, '{');
    let start: usize = if first < n {
        first
    } else {
        0
    };
    let mut brace: Vec<char> = Vec::new();
    brace.push('}');
    assert(brace@ =~= seq!['}']);
    let end: usize = match find_last(&v, &brace) {
        Some(i) => {
            proof {
                lemma_last_index(v@, brace@);
                assert(occurs_at(v@, brace@, i as int));
            }
            i + 1
        },
        None => n,
    };
    if start >= end {
        return string_of(&v);
    }
    let out: Vec<char> = copy_range(&v, start, end);
    string_of(&out)
}

/// The address that carries data of the given media type in the given
/// base64 text.
pub open spec fn data_address(mime: Seq<char>, encoded: Seq<char>) -> Seq<char> {
    "data:"@ + mime + ";base64,"@ + encoded
}

/// The address under which a picture is handed to the model: its media
/// type and its bytes in base64.
pub open spec fn data_url_text(mime: Seq<char>, data: Seq<u8>) -> Seq<char> {
    data_address(mime, base64_of(data))
}

/// The address that carries data of the given media type in the given
/// base64 text.
pub fn data_url(mime: &str, encoded: &str) -> (r: String)
    ensures
        r@ == data_address(mime@, encoded@),
{
    let mut out: Vec<char> = chars_of("data:");
    push_text(&mut out, mime);
    push_text(&mut out, ";base64,");
    push_text(&mut out, encoded);
    string_of(&out)
}

/// The address under which a picture is handed to the model.
pub fn image_data_url(mime: &str, data: &[u8]) -> (r: String)
    requires
        (data@.len() + 2) / 3 <= usize::MAX / 4,
    ensures
        r@ == data_url_text(mime@, data@),
{
    let encoded: String = base64_encode(data);
    data_url(mime, encoded.as_str())
}

/// The provider that a name in small letters stands for: `ollama`, `groq`,
/// and OpenAI for any other name.
pub open spec fn provider_named(lower: Seq<char>) -> AIProvider {
    if lower == "ollama"@ {
        AIProvider::Ollama
    } else if lower == "groq"@ {
        AIProvider::Groq
    } else {
        AIProvider::OpenAI
    }
}

/// The provider that a name in small letters stands for.
pub fn provider_for(lower: &str) -> (r: AIProvider)
    ensures
        r == provider_named(lower@),
{
    let name: Vec<char> = chars_of(lower);
    if is_text(&name, "ollama") {
        AIProvider::Ollama
    } else if is_text(&name, "groq") {
        AIProvider::Groq
    } else {
        AIProvider::OpenAI
    }
}

/// The provider that a configured name stands for, whatever the case of
/// its letters.
pub fn provider_from_name(name: &str) -> (r: AIProvider)
    ensures
        r == provider_named(lowercase_of(name@)),
{
    let lower: String = name.to_lowercase();
    provider_for(lower.as_str())
}

} // verus!
