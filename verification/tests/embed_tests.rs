use openai_embeddings::Embedding;
use openai_embeddings::EmbedError;
use openai_embeddings::OpenAIConfig;
use openai_embeddings::OpenAIEmbeddings;
use openai_embeddings::ResponseBody;
use openai_embeddings::ResultEntry;
use openai_embeddings::ServiceOutcome;
use openai_embeddings::ShapeKind;

fn provider() -> OpenAIEmbeddings {
    OpenAIEmbeddings::new(OpenAIConfig {
        api_endpoint: "http://localhost:9999/v1/embeddings".to_string(),
        api_key: "k".to_string(),
        model: "text-embedding-3-small".to_string(),
    })
}

/// Parses a mocked success body the way the surrounding application
/// does: the JSON shape `{"data":[{"embedding":[...]}]}`, each number
/// carried on as its single-precision bit pattern.
fn outcome_from_body(text: &str) -> ServiceOutcome {
    let value: serde_json::Value = match serde_json::from_str(text) {
        Ok(v) => v,
        Err(e) => {
            return ServiceOutcome::MalformedBody {
                detail: e.to_string(),
            }
        }
    };
    let entries = match value.get("data").and_then(|d| d.as_array()) {
        Some(entries) => entries,
        None => {
            return ServiceOutcome::MalformedBody {
                detail: "no data array".to_string(),
            }
        }
    };
    let mut data = Vec::new();
    for entry in entries {
        let embedding = entry.get("embedding").and_then(|e| e.as_array()).map(|numbers| {
            Embedding::new(
                numbers
                    .iter()
                    .map(|n| (n.as_f64().unwrap_or(0.0) as f32).to_bits())
                    .collect(),
            )
        });
        data.push(ResultEntry { embedding });
    }
    ServiceOutcome::Parsed {
        body: ResponseBody { data },
    }
}

fn floats(embedding: &Embedding) -> Vec<f32> {
    embedding.bits.iter().map(|b| f32::from_bits(*b)).collect()
}

#[test]
fn embed_empty_docs_returns_empty_without_exchange() {
    let provider = provider();
    let session = provider.start_embed(Vec::new());
    // No document is pending: no network exchange is owed.
    assert_eq!(session.next_index(), None);
    let r = session.finish();
    assert_eq!(r.expect("empty batch must succeed").len(), 0);
}

#[test]
fn embed_two_docs_returns_both_in_order() {
    let provider = provider();
    let docs = vec!["a".to_string(), "b".to_string()];
    let outcomes = vec![
        outcome_from_body(r#"{"data":[{"embedding":[0.1,0.2]}]}"#),
        outcome_from_body(r#"{"data":[{"embedding":[0.3,0.4]}]}"#),
    ];
    let r = provider.embed_outcomes(docs, outcomes);
    let embeddings = r.expect("both exchanges succeeded");
    assert_eq!(embeddings.len(), 2);
    assert_eq!(floats(&embeddings[0]), vec![0.1_f32, 0.2_f32]);
    assert_eq!(floats(&embeddings[1]), vec![0.3_f32, 0.4_f32]);
}

#[test]
fn embed_three_docs_preserves_order_and_length() {
    let provider = provider();
    let docs = vec!["x".to_string(), "y".to_string(), "z".to_string()];
    let outcomes = vec![
        outcome_from_body(r#"{"data":[{"embedding":[1.0]}]}"#),
        outcome_from_body(r#"{"data":[{"embedding":[2.0]}]}"#),
        outcome_from_body(r#"{"data":[{"embedding":[3.0]}]}"#),
    ];
    let embeddings = provider.embed_outcomes(docs, outcomes).expect("all succeeded");
    assert_eq!(embeddings.len(), 3);
    assert_eq!(floats(&embeddings[0]), vec![1.0_f32]);
    assert_eq!(floats(&embeddings[1]), vec![2.0_f32]);
    assert_eq!(floats(&embeddings[2]), vec![3.0_f32]);
}

#[test]
fn embed_fails_whole_operation_on_status() {
    let provider = provider();
    let docs = vec!["a".to_string(), "b".to_string()];
    let outcomes = vec![
        outcome_from_body(r#"{"data":[{"embedding":[0.1,0.2]}]}"#),
        ServiceOutcome::Status {
            status: 401,
            body: "unauthorized".to_string(),
        },
    ];
    let r = provider.embed_outcomes(docs, outcomes);
    // No embedding list at all: the operation fails as a whole.
    let e = r.expect_err("second exchange failed");
    assert_eq!(
        e,
        EmbedError::Service {
            index: 1,
            status: 401,
            body: "unauthorized".to_string(),
        }
    );
}

#[test]
fn failure_stops_the_session_before_later_docs() {
    let provider = provider();
    let docs = vec!["a".to_string(), "b".to_string(), "c".to_string()];
    let mut session = provider.start_embed(docs);

    assert_eq!(session.next_index(), Some(0));
    session.apply_outcome(outcome_from_body(r#"{"data":[{"embedding":[0.5]}]}"#));

    assert_eq!(session.next_index(), Some(1));
    session.apply_outcome(ServiceOutcome::Status {
        status: 500,
        body: "server error".to_string(),
    });

    // The second exchange failed: the third document is never asked
    // for, so no exchange for it can happen.
    assert_eq!(session.next_index(), None);
    let e = session.finish().expect_err("session failed");
    assert_eq!(e.document_index(), 1);
}

#[test]
fn transport_failure_carries_document_index() {
    let provider = provider();
    let docs = vec!["only".to_string()];
    let outcomes = vec![ServiceOutcome::Transport {
        detail: "connection refused".to_string(),
    }];
    let e = provider.embed_outcomes(docs, outcomes).expect_err("transport failed");
    assert_eq!(
        e,
        EmbedError::Transport {
            index: 0,
            detail: "connection refused".to_string(),
        }
    );
}

#[test]
fn missing_embedding_field_is_a_shape_error() {
    let provider = provider();
    let docs = vec!["a".to_string()];
    let outcomes = vec![outcome_from_body(r#"{"data":[{"index":0}]}"#)];
    let e = provider.embed_outcomes(docs, outcomes).expect_err("shape error");
    assert_eq!(
        e,
        EmbedError::Shape {
            index: 0,
            kind: ShapeKind::MissingEmbedding,
        }
    );
}

#[test]
fn empty_data_is_a_shape_error_not_a_crash() {
    let provider = provider();
    let docs = vec!["a".to_string()];
    let outcomes = vec![outcome_from_body(r#"{"data":[]}"#)];
    let e = provider.embed_outcomes(docs, outcomes).expect_err("shape error");
    assert_eq!(
        e,
        EmbedError::Shape {
            index: 0,
            kind: ShapeKind::EmptyData,
        }
    );
}

#[test]
fn malformed_body_is_a_shape_error() {
    let provider = provider();
    let docs = vec!["a".to_string()];
    let outcomes = vec![outcome_from_body("this is not json")];
    let e = provider.embed_outcomes(docs, outcomes).expect_err("shape error");
    match e {
        EmbedError::Shape {
            index: 0,
            kind: ShapeKind::MalformedBody { .. },
        } => {}
        other => panic!("expected a malformed-body shape error, got {:?}", other),
    }
}

#[test]
fn only_the_first_result_entry_is_used() {
    let provider = provider();
    let docs = vec!["a".to_string()];
    let outcomes = vec![outcome_from_body(
        r#"{"data":[{"embedding":[7.0]},{"embedding":[8.0]}]}"#,
    )];
    let embeddings = provider.embed_outcomes(docs, outcomes).expect("succeeded");
    assert_eq!(embeddings.len(), 1);
    assert_eq!(floats(&embeddings[0]), vec![7.0_f32]);
}

#[test]
fn first_embedding_extraction_reports_each_shape() {
    let body = ResponseBody {
        data: vec![ResultEntry {
            embedding: Some(Embedding::new(vec![1_u32, 2_u32])),
        }],
    };
    let e = body.into_first_embedding().expect("entry carries an embedding");
    assert_eq!(e.len(), 2);
    assert_eq!(e.bits, vec![1_u32, 2_u32]);

    let empty = ResponseBody { data: Vec::new() };
    assert_eq!(empty.into_first_embedding(), Err(ShapeKind::EmptyData));

    let missing = ResponseBody {
        data: vec![ResultEntry { embedding: None }],
    };
    assert_eq!(missing.into_first_embedding(), Err(ShapeKind::MissingEmbedding));
}
