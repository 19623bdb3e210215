use agent_core::errors::AppError;
use agent_core::models::HybridContext;
use agent_core::retriever::{
    finish_retrieval, is_blank, plan_retrieval, retrieve, RetrievalPlan,
};

fn fragments(n: usize) -> Vec<HybridContext> {
    (0..n)
        .map(|i| HybridContext {
            chunk_id: format!("c{}", i),
            content: format!("text {}", i),
            connected_entities: vec![format!("e{}", i)],
        })
        .collect()
}

#[test]
fn retrieval_returns_at_most_k_fragments() {
    for found in 0..8usize {
        for k in 0..6usize {
            let kept = finish_retrieval(Ok(fragments(found)), k).unwrap();
            assert!(kept.len() <= k);
            assert_eq!(kept.len(), found.min(k));
            for (i, f) in kept.iter().enumerate() {
                assert_eq!(f.chunk_id, format!("c{}", i));
            }
        }
    }
}

#[test]
fn retrieval_for_no_fragments_asks_nobody() {
    assert!(matches!(plan_retrieval("what is anxiety?", 0), RetrievalPlan::Nothing));
    assert!(finish_retrieval(Ok(fragments(3)), 0).unwrap().is_empty());
}

#[test]
fn retrieval_of_a_query_embeds_it() {
    assert!(matches!(plan_retrieval("what is anxiety?", 3), RetrievalPlan::Embed));
    assert!(matches!(plan_retrieval(" x ", 1), RetrievalPlan::Embed));
}

#[test]
fn blank_query_is_rejected() {
    for q in ["", " ", "\n\t  ", "\u{a0}\u{3000}"] {
        for k in [0usize, 3] {
            match plan_retrieval(q, k) {
                RetrievalPlan::Reject(AppError::ValidationError(m)) => {
                    assert_eq!(m, "Texto vacío para embedding")
                }
                other => panic!("unexpected plan {:?}", other),
            }
        }
    }
}

#[test]
fn empty_store_gives_an_empty_result_and_no_error() {
    assert!(finish_retrieval(Ok(vec![]), 3).unwrap().is_empty());
}

#[test]
fn provider_failure_is_passed_on() {
    match finish_retrieval(Err(AppError::AIError("no route".to_string())), 3) {
        Err(AppError::AIError(m)) => assert_eq!(m, "no route"),
        other => panic!("unexpected result {:?}", other),
    }
    match finish_retrieval(Err(AppError::DatabaseError("down".to_string())), 3) {
        Err(AppError::DatabaseError(m)) => assert_eq!(m, "down"),
        other => panic!("unexpected result {:?}", other),
    }
}

#[test]
fn blank_means_only_white_space() {
    assert!(is_blank(""));
    assert!(is_blank(" \t\r\n\u{b}\u{c}\u{85}\u{a0}\u{1680}\u{2000}\u{200a}\u{2028}\u{2029}\u{202f}\u{205f}\u{3000}"));
    assert!(!is_blank("a"));
    assert!(!is_blank("  a  "));
    assert!(!is_blank("\u{200b}"));
    assert!(!is_blank("\u{feff}"));
}

#[test]
fn retrieve_holds_for_every_query_count_and_answer() {
    for q in ["what is anxiety?", " x "] {
        for found in 0..6usize {
            for k in 0..5usize {
                let kept = retrieve(q, k, Ok(fragments(found))).unwrap();
                assert!(kept.len() <= k);
                assert_eq!(kept.len(), found.min(k));
            }
        }
        assert!(retrieve(q, 0, Err(AppError::AIError("no route".to_string()))).unwrap().is_empty());
        assert!(matches!(
            retrieve(q, 2, Err(AppError::DatabaseError("down".to_string()))),
            Err(AppError::DatabaseError(_))
        ));
    }
    for k in [0usize, 3] {
        assert!(matches!(retrieve("  ", k, Ok(fragments(2))), Err(AppError::ValidationError(_))));
    }
}
