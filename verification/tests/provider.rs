use agent_core::models::AIProvider;
use agent_core::provider::{
    bearer, clean_json_response, completions_url, data_url, embeddings_url, engine_base_url,
    image_data_url, provider_for, provider_from_name,
};

fn some(s: &str) -> Option<String> {
    Some(s.to_string())
}

#[test]
fn engine_base_loses_slashes_then_the_version() {
    assert_eq!(engine_base_url(&None), "https://api.openai.com");
    assert_eq!(engine_base_url(&some("https://api.openai.com/v1")), "https://api.openai.com");
    assert_eq!(engine_base_url(&some("https://api.openai.com/v1/")), "https://api.openai.com");
    assert_eq!(engine_base_url(&some("http://localhost:11434")), "http://localhost:11434");
    assert_eq!(engine_base_url(&some("http://h/v1/v1//")), "http://h");
    assert_eq!(engine_base_url(&some("http://h/v1/x")), "http://h/v1/x");
    assert_eq!(engine_base_url(&some("")), "");
}

#[test]
fn embeddings_address_follows_the_base() {
    assert_eq!(embeddings_url(&None), "https://api.openai.com/v1/embeddings");
    assert_eq!(embeddings_url(&some("http://h:1/v1/")), "http://h:1/v1/embeddings");
    assert_eq!(embeddings_url(&some("http://h:1")), "http://h:1/embeddings");
    assert_eq!(embeddings_url(&some("")), "/embeddings");
}

#[test]
fn bearer_header_carries_the_key() {
    assert_eq!(bearer("sk-1"), "Bearer sk-1");
    assert_eq!(bearer(""), "Bearer ");
}

#[test]
fn json_object_is_taken_out_of_the_reply() {
    assert_eq!(clean_json_response("Sure: {\"a\": 1} done"), "{\"a\": 1}");
    assert_eq!(clean_json_response("```json\n{\"a\": {\"b\": 2}}\n```"), "{\"a\": {\"b\": 2}}");
    assert_eq!(clean_json_response("{}"), "{}");
}

#[test]
fn reply_without_braces_is_left_alone() {
    assert_eq!(clean_json_response("no json"), "no json");
    assert_eq!(clean_json_response(""), "");
}

#[test]
fn reply_with_one_kind_of_brace_is_cut_on_that_side() {
    assert_eq!(clean_json_response("ab{cd"), "{cd");
    assert_eq!(clean_json_response("ab}cd"), "ab}");
}

#[test]
fn reply_with_braces_out_of_order_is_left_alone() {
    assert_eq!(clean_json_response("}{"), "}{");
    assert_eq!(clean_json_response("a}b{c"), "a}b{c");
}

#[test]
fn json_span_counts_characters_not_bytes() {
    assert_eq!(clean_json_response("sí: {\"ñ\": \"é\"} fin"), "{\"ñ\": \"é\"}");
}

#[test]
fn picture_is_handed_over_as_a_data_address() {
    assert_eq!(image_data_url("image/png", b"hello world~"), "data:image/png;base64,aGVsbG8gd29ybGR+");
    assert_eq!(image_data_url("image/png", b""), "data:image/png;base64,");
    assert_eq!(image_data_url("image/jpeg", &[0xff, 0xd8]), "data:image/jpeg;base64,/9g=");
    assert_eq!(image_data_url("a/b", b"a"), "data:a/b;base64,YQ==");
}

#[test]
fn provider_is_read_from_its_name() {
    assert_eq!(provider_for("ollama"), AIProvider::Ollama);
    assert_eq!(provider_for("groq"), AIProvider::Groq);
    assert_eq!(provider_for("openai"), AIProvider::OpenAI);
    assert_eq!(provider_for("anything"), AIProvider::OpenAI);
    assert_eq!(provider_for(""), AIProvider::OpenAI);
    assert_eq!(provider_for("Ollama"), AIProvider::OpenAI);
}

#[test]
fn provider_name_may_be_in_any_case() {
    assert_eq!(provider_from_name("Ollama"), AIProvider::Ollama);
    assert_eq!(provider_from_name("GROQ"), AIProvider::Groq);
    assert_eq!(provider_from_name("OpenAI"), AIProvider::OpenAI);
}

#[test]
fn completions_address_puts_the_version_back() {
    assert_eq!(completions_url(&None), "https://api.openai.com/v1/chat/completions");
    assert_eq!(completions_url(&some("http://h:1/v1/")), "http://h:1/v1/chat/completions");
    assert_eq!(completions_url(&some("http://h:1")), "http://h:1/v1/chat/completions");
}

#[test]
fn data_address_carries_the_media_type_and_the_encoded_text() {
    assert_eq!(data_url("image/png", "aGk="), "data:image/png;base64,aGk=");
    assert_eq!(data_url("", ""), "data:;base64,");
    assert_eq!(data_url("a/b", "x y"), "data:a/b;base64,x y");
}
