use agent_core::chat::{
    chat_base_url, chat_system_prompt, copy_texts, flatten, render_evidence, CHAT_FRAGMENTS,
};
use agent_core::models::HybridContext;

fn chunk(id: &str, text: &str, entities: Vec<&str>) -> HybridContext {
    HybridContext {
        chunk_id: id.to_string(),
        content: text.to_string(),
        connected_entities: entities.into_iter().map(|e| e.to_string()).collect(),
    }
}

fn to_text(chars: Vec<char>) -> String {
    chars.into_iter().collect()
}

#[test]
fn evidence_numbers_the_sources_from_one() {
    let e = render_evidence(&vec![
        chunk("c1", " line one\nline two \n", vec!["Ana", "Ansiedad"]),
        chunk("c2", "other", vec![]),
    ]);
    assert_eq!(
        e.text,
        "EVIDENCIA RECUPERADA DEL SISTEMA:\n\
         FUENTE [1]:\n- Texto: \"line one line two\"\n- Entidades Clave en Grafo: [Ana, Ansiedad]\n\n\
         FUENTE [2]:\n- Texto: \"other\"\n- Entidades Clave en Grafo: []\n\n"
    );
    assert_eq!(e.sources.len(), 2);
    assert_eq!(e.sources[0].index, 1);
    assert_eq!(e.sources[0].chunk_id, "c1");
    assert_eq!(e.sources[0].short_content, "line one line two");
    assert_eq!(e.sources[0].concepts, vec!["Ana", "Ansiedad"]);
    assert_eq!(e.sources[1].index, 2);
    assert_eq!(e.sources[1].chunk_id, "c2");
    assert!(e.sources[1].concepts.is_empty());
}

#[test]
fn evidence_without_fragments_is_the_heading_alone() {
    let e = render_evidence(&vec![]);
    assert_eq!(e.text, "EVIDENCIA RECUPERADA DEL SISTEMA:\n");
    assert!(e.sources.is_empty());
}

#[test]
fn excerpt_is_cut_at_two_hundred_characters() {
    let long = "é".repeat(250);
    let e = render_evidence(&vec![chunk("c", &long, vec![])]);
    assert_eq!(e.sources[0].short_content, "é".repeat(200));
    let exact = "x".repeat(200);
    let e = render_evidence(&vec![chunk("c", &exact, vec![])]);
    assert_eq!(e.sources[0].short_content, exact);
}

#[test]
fn many_fragments_keep_their_numbers() {
    let fragments: Vec<HybridContext> =
        (0..12).map(|i| chunk(&format!("c{}", i), "t", vec![])).collect();
    let e = render_evidence(&fragments);
    assert!(e.text.contains("FUENTE [10]:\n"));
    assert!(e.text.ends_with("FUENTE [12]:\n- Texto: \"t\"\n- Entidades Clave en Grafo: []\n\n"));
    assert_eq!(e.sources[11].index, 12);
    assert_eq!(CHAT_FRAGMENTS, 5);
}

#[test]
fn flatten_puts_the_text_on_one_line() {
    assert_eq!(to_text(flatten("a\nb\n\nc")), "a b  c");
    assert_eq!(to_text(flatten("\n a \n")), "a");
    assert_eq!(to_text(flatten("")), "");
    assert_eq!(to_text(flatten("a\r\nb")), "a\r b");
}

#[test]
fn system_prompt_wraps_the_evidence() {
    let p = chat_system_prompt("EVIDENCE");
    assert!(p.starts_with("\n        Actúa como \"LaMuralla AI\", un asistente experto"));
    assert!(p.ends_with("CONTEXTO:\n        EVIDENCE\n        "));
    assert!(p.contains("3. Si la información no está en las fuentes, di explícitamente: \"No tengo evidencia registrada sobre esto.\""));
    assert_eq!(p.matches("EVIDENCE").count(), 1);
}

#[test]
fn chat_base_loses_the_version_and_the_slashes() {
    assert_eq!(chat_base_url("https://api.openai.com/v1"), "https://api.openai.com");
    assert_eq!(chat_base_url("https://api.openai.com/v1/v1"), "https://api.openai.com");
    assert_eq!(chat_base_url("http://localhost:11434/"), "http://localhost:11434");
    assert_eq!(chat_base_url("http://localhost:11434/v1/"), "http://localhost:11434/v1");
    assert_eq!(chat_base_url("http://h//v1"), "http://h");
    assert_eq!(chat_base_url(""), "");
    assert_eq!(chat_base_url("/v1"), "");
}

#[test]
fn texts_are_copied() {
    let items = vec!["a".to_string(), "".to_string(), "sí".to_string()];
    assert_eq!(copy_texts(&items), items);
}
